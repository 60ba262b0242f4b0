use core::convert::Infallible;
use core::marker::PhantomData;
use vstd::prelude::*;

use crate::logger::Logger;

verus! {

/// A logger that collects values into a container.
pub fn extender<C, I>(container: C) -> (r: Extender<C, I>)
    ensures
        r.contents() == container,
{
    Extender { container, _phantom: PhantomData }
}

/// Returned from [`extender`].
///
/// The container is public: its owner inspects what was collected.
pub struct Extender<C, I> {
    pub container: C,
    _phantom: PhantomData<I>,
}

impl<C, I> Extender<C, I> {
    /// The container, as it stands.
    pub closed spec fn contents(&self) -> C {
        self.container
    }
}

impl<I> Logger<I> for Extender<Vec<I>, I> {
    type Error = Infallible;

    open spec fn can_log(&self, item: I) -> bool {
        true
    }

    /// The item is appended to the container, and the call never fails.
    open spec fn logged(&self, item: I, next: Self, r: Result<(), Infallible>) -> bool {
        &&& next.contents()@ == self.contents()@.push(item)
        &&& r is Ok
    }

    fn log(&mut self, item: I) -> (r: Result<(), Infallible>) {
        self.container.push(item);
        Ok(())
    }
}

} // verus!
