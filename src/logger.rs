use vstd::prelude::*;

use crate::chain::Chain;
use crate::filter::Filter;
use crate::map::Mapped;
use crate::safe::Safe;

verus! {

/// A logger is a routine that takes input and has side effects.
///
/// `can_log` says which items the logger is ready for in a given state, and
/// `logged` relates the state before a call of `log` to the state after it
/// and to the result reported.
pub trait Logger<I>: Sized {
    type Error;

    /// Holds when `item` may be handed to `log` in this state. A logger
    /// that does not say otherwise is ready for every item.
    open spec fn can_log(&self, item: I) -> bool {
        true
    }

    /// One call of `log` with `item`, starting from `self`, may leave the
    /// logger as `next` and report `r`. A logger that does not say otherwise
    /// promises nothing of the call.
    open spec fn logged(&self, item: I, next: Self, r: Result<(), Self::Error>) -> bool {
        true
    }

    /// Log one item.
    fn log(&mut self, item: I) -> (r: Result<(), Self::Error>)
        requires
            (*old(self)).can_log(item),
        ensures
            (*old(self)).logged(item, *final(self), r),
    ;

    /// Create a "by reference" adaptor for this logger: a handle that logs
    /// into `self`, which stays with its owner once the handle is gone.
    fn by_ref(&mut self) -> (r: &mut Self)
        ensures
            *r == *old(self),
            *final(self) == *final(r),
    {
        self
    }

    /// Combine two loggers, creating a new logger that logs each input to
    /// both loggers.
    fn chain<L>(self, other: L) -> (r: Chain<Self, L>)
        ensures
            r.first() == self,
            r.second() == other,
    {
        Chain::new(self, other)
    }

    /// Apply a function to each input and pass it to the logger only if the
    /// function returns true for it.
    fn filter<F>(self, f: F) -> (r: Filter<Self, F>)
        where
            F: Fn(&I) -> bool,
        ensures
            r.inner() == self,
            r.predicate() == f,
    {
        Filter::new(self, f)
    }

    /// Apply a function to each input before passing it to the logger.
    fn map<F, B>(self, f: F) -> (r: Mapped<Self, F, B>)
        ensures
            r.inner() == self,
            r.function() == f,
    {
        Mapped::new(self, f)
    }

    /// Return a logger that silently drops errors reported by this logger.
    fn safe<E>(self) -> (r: Safe<Self, E>)
        ensures
            r.inner() == self,
    {
        Safe::new(self)
    }
}

/// A mutable reference to a logger is a logger: it logs into the logger that
/// it points to.
impl<'a, I, L: Logger<I>> Logger<I> for &'a mut L {
    type Error = L::Error;

    open spec fn can_log(&self, item: I) -> bool {
        (**self).can_log(item)
    }

    open spec fn logged(&self, item: I, next: Self, r: Result<(), L::Error>) -> bool {
        (**self).logged(item, *next, r)
    }

    fn log(&mut self, item: I) -> (r: Result<(), L::Error>) {
        (**self).log(item)
    }
}

} // verus!
