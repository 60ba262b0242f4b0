use core::marker::PhantomData;
use vstd::prelude::*;

use crate::logger::Logger;

verus! {

/// A logger that ignores all input.
pub fn empty<I, E>() -> (r: Empty<I, E>)
    ensures
        forall|x: I| r.can_log(x),
{
    Empty { _phantom: PhantomData }
}

/// Returned from [`empty`].
pub struct Empty<I, E> {
    _phantom: PhantomData<(I, E)>,
}

impl<I, E> Logger<I> for Empty<I, E> {
    type Error = E;

    open spec fn can_log(&self, item: I) -> bool {
        true
    }

    open spec fn logged(&self, item: I, next: Self, r: Result<(), E>) -> bool {
        &&& next == *self
        &&& r is Ok
    }

    fn log(&mut self, _item: I) -> (r: Result<(), E>) {
        Ok(())
    }
}

} // verus!
