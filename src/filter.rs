use vstd::prelude::*;

use crate::logger::Logger;

verus! {

/// Returned from [`Logger::filter`]: passes an item on only where the
/// predicate holds of it.
pub struct Filter<L, F> {
    inner: L,
    f: F,
}

impl<L, F> Filter<L, F> {
    /// The logger that receives the items that pass.
    pub closed spec fn inner(&self) -> L {
        self.inner
    }

    /// The predicate.
    pub closed spec fn predicate(&self) -> F {
        self.f
    }

    pub(crate) fn new(inner: L, f: F) -> (r: Filter<L, F>)
        ensures
            r.inner() == inner,
            r.predicate() == f,
    {
        Filter { inner, f }
    }
}

impl<I, L: Logger<I>, F: Fn(&I) -> bool> Logger<I> for Filter<L, F> {
    type Error = L::Error;

    /// The predicate may be asked about the item, and where it may answer
    /// yes, the inner logger is ready for the item.
    open spec fn can_log(&self, item: I) -> bool {
        &&& call_requires(self.predicate(), (&item,))
        &&& call_ensures(self.predicate(), (&item,), true) ==> self.inner().can_log(item)
    }

    /// Where the predicate answers yes, the inner logger takes the item and
    /// its result is reported; where it answers no, nothing changes and the
    /// call succeeds.
    open spec fn logged(&self, item: I, next: Self, r: Result<(), L::Error>) -> bool {
        &&& next.predicate() == self.predicate()
        &&& {
            ||| call_ensures(self.predicate(), (&item,), true) && self.inner().logged(
                item,
                next.inner(),
                r,
            )
            ||| call_ensures(self.predicate(), (&item,), false) && next.inner() == self.inner()
                && r is Ok
        }
    }

    fn log(&mut self, item: I) -> (r: Result<(), L::Error>) {
        if (self.f)(&item) {
            self.inner.log(item)
        } else {
            Ok(())
        }
    }
}

} // verus!
