use vstd::pervasive::cloned;
use vstd::prelude::*;

use crate::logger::Logger;

verus! {

/// Returned from [`Logger::chain`]: logs each item to both loggers, the
/// first one first.
pub struct Chain<L, M> {
    fst: L,
    snd: M,
}

impl<L, M> Chain<L, M> {
    /// The logger that sees each item first.
    pub closed spec fn first(&self) -> L {
        self.fst
    }

    /// The logger that sees each item once the first one has taken it.
    pub closed spec fn second(&self) -> M {
        self.snd
    }

    pub(crate) fn new(fst: L, snd: M) -> (r: Chain<L, M>)
        ensures
            r.first() == fst,
            r.second() == snd,
    {
        Chain { fst, snd }
    }
}

impl<I: Clone, L: Logger<I>, M: Logger<I, Error = L::Error>> Logger<I> for Chain<L, M> {
    type Error = L::Error;

    /// Both loggers are ready for the item, and for any copy of it.
    open spec fn can_log(&self, item: I) -> bool {
        &&& forall|c: I| cloned(item, c) ==> #[trigger] self.first().can_log(c)
        &&& self.second().can_log(item)
    }

    /// The first logger takes a copy of the item. If it fails, its error is
    /// reported and the second logger is left as it was; otherwise the second
    /// logger takes the item and its result is reported.
    open spec fn logged(&self, item: I, next: Self, r: Result<(), L::Error>) -> bool {
        exists|c: I, r1: Result<(), L::Error>|
            {
                &&& cloned(item, c)
                &&& #[trigger] self.first().logged(c, next.first(), r1)
                &&& match r1 {
                    Err(e) => r == Err::<(), L::Error>(e) && next.second() == self.second(),
                    Ok(_) => self.second().logged(item, next.second(), r),
                }
            }
    }

    fn log(&mut self, item: I) -> (r: Result<(), L::Error>) {
        let ghost before = *self;
        let c = item.clone();
        assert(before.first().can_log(c));
        let r1 = self.fst.log(c);
        assert(before.first().logged(c, self.first(), r1));
        if r1.is_err() {
            return r1;
        }
        let r = self.snd.log(item);
        assert(before.first().logged(c, self.first(), r1));
        r
    }
}

} // verus!
