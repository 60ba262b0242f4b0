use core::marker::PhantomData;
use vstd::prelude::*;

use crate::logger::Logger;

verus! {

/// Returned from [`Logger::map`]: applies a function to each item before
/// passing it on.
pub struct Mapped<L, F, B> {
    inner: L,
    f: F,
    _phantom: PhantomData<B>,
}

impl<L, F, B> Mapped<L, F, B> {
    /// The logger that receives the mapped items.
    pub closed spec fn inner(&self) -> L {
        self.inner
    }

    /// The function applied to each item.
    pub closed spec fn function(&self) -> F {
        self.f
    }

    pub(crate) fn new(inner: L, f: F) -> (r: Mapped<L, F, B>)
        ensures
            r.inner() == inner,
            r.function() == f,
    {
        Mapped { inner, f, _phantom: PhantomData }
    }
}

impl<I, L: Logger<I>, F: Fn(B) -> I, B> Logger<B> for Mapped<L, F, B> {
    type Error = L::Error;

    /// The function may be applied to the item, and the inner logger is
    /// ready for whatever it returns.
    open spec fn can_log(&self, item: B) -> bool {
        &&& call_requires(self.function(), (item,))
        &&& forall|y: I| call_ensures(self.function(), (item,), y) ==> #[trigger] self.inner().can_log(y)
    }

    /// The inner logger takes what the function returns for the item, and
    /// its result is reported.
    open spec fn logged(&self, item: B, next: Self, r: Result<(), L::Error>) -> bool {
        &&& next.function() == self.function()
        &&& exists|y: I|
            call_ensures(self.function(), (item,), y) && #[trigger] self.inner().logged(
                y,
                next.inner(),
                r,
            )
    }

    fn log(&mut self, item: B) -> (r: Result<(), L::Error>) {
        let ghost before = *self;
        let new_item = (self.f)(item);
        assert(before.inner().can_log(new_item));
        let r = self.inner.log(new_item);
        assert(before.inner().logged(new_item, self.inner(), r));
        r
    }
}

} // verus!
