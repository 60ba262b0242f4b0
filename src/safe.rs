use core::marker::PhantomData;
use vstd::prelude::*;

use crate::logger::Logger;

verus! {

/// Returned from [`Logger::safe`]: passes each item on and drops the errors
/// that come back.
pub struct Safe<L, E> {
    inner: L,
    _phantom: PhantomData<E>,
}

impl<L, E> Safe<L, E> {
    /// The logger whose errors are dropped.
    pub closed spec fn inner(&self) -> L {
        self.inner
    }

    pub(crate) fn new(inner: L) -> (r: Safe<L, E>)
        ensures
            r.inner() == inner,
    {
        Safe { inner, _phantom: PhantomData }
    }
}

impl<I, L: Logger<I>, E> Logger<I> for Safe<L, E> {
    type Error = E;

    open spec fn can_log(&self, item: I) -> bool {
        self.inner().can_log(item)
    }

    /// The inner logger takes the item, and the call succeeds whatever it
    /// reported.
    open spec fn logged(&self, item: I, next: Self, r: Result<(), E>) -> bool {
        &&& exists|r1: Result<(), L::Error>| #[trigger] self.inner().logged(item, next.inner(), r1)
        &&& r is Ok
    }

    fn log(&mut self, item: I) -> (r: Result<(), E>) {
        let ghost before = *self;
        let result = self.inner.log(item);
        assert(before.inner().logged(item, self.inner(), result));
        Ok(())
    }
}

} // verus!
