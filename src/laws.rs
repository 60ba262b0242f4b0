use core::convert::Infallible;
use vstd::pervasive::{cloned, strictly_cloned};
use vstd::prelude::*;

use crate::chain::Chain;
use crate::empty::Empty;
use crate::extender::Extender;
use crate::filter::Filter;
use crate::logger::Logger;
use crate::map::Mapped;
use crate::safe::Safe;

verus! {

/// A chain hands the item to its first logger, and to its second only where
/// the first succeeded: when cloning `x` gives back a value equal to `x`, the
/// first logger takes `x` itself; if it fails, its error is reported and the
/// second logger is left untouched; otherwise the second logger takes `x` and
/// its result is reported.
pub proof fn lemma_chain_delegates<I: Clone, A: Logger<I>, B: Logger<I, Error = A::Error>>(
    c: Chain<A, B>,
    x: I,
    next: Chain<A, B>,
    r: Result<(), A::Error>,
)
    requires
        forall|y: I| #[trigger] strictly_cloned(x, y) ==> y == x,
        c.logged(x, next, r),
    ensures
        exists|r1: Result<(), A::Error>|
            {
                &&& #[trigger] c.first().logged(x, next.first(), r1)
                &&& match r1 {
                    Err(e) => r == Err::<(), A::Error>(e) && next.second() == c.second(),
                    Ok(_) => c.second().logged(x, next.second(), r),
                }
            },
{
    let (y, r1) = choose|y: I, r1: Result<(), A::Error>|
        {
            &&& cloned(x, y)
            &&& #[trigger] c.first().logged(y, next.first(), r1)
            &&& match r1 {
                Err(e) => r == Err::<(), A::Error>(e) && next.second() == c.second(),
                Ok(_) => c.second().logged(x, next.second(), r),
            }
        };
    assert(y == x);
    assert(c.first().logged(x, next.first(), r1));
}

/// A filter passes the item on exactly where the predicate holds: when the
/// predicate's answer on `x` is `keep`, logging `x` does what the inner logger
/// does with `x` if `keep` holds, and otherwise succeeds and leaves the inner
/// logger as it was.
pub proof fn lemma_filter_gates<I, L: Logger<I>, F: Fn(&I) -> bool>(
    g: Filter<L, F>,
    x: I,
    keep: bool,
    next: Filter<L, F>,
    r: Result<(), L::Error>,
)
    requires
        forall|b: bool| call_ensures(g.predicate(), (&x,), b) <==> b == keep,
        next.predicate() == g.predicate(),
    ensures
        g.logged(x, next, r) <==> if keep {
            g.inner().logged(x, next.inner(), r)
        } else {
            next.inner() == g.inner() && r is Ok
        },
{
    assert(call_ensures(g.predicate(), (&x,), keep));
}

/// Mapping substitutes the function's result: when the function sends `x` to
/// `fx`, logging `x` does exactly what the inner logger does with `fx`.
pub proof fn lemma_map_substitutes<I, B, L: Logger<I>, F: Fn(B) -> I>(
    m: Mapped<L, F, B>,
    x: B,
    fx: I,
    next: Mapped<L, F, B>,
    r: Result<(), L::Error>,
)
    requires
        forall|y: I| call_ensures(m.function(), (x,), y) <==> y == fx,
        next.function() == m.function(),
    ensures
        m.can_log(x) <==> call_requires(m.function(), (x,)) && m.inner().can_log(fx),
        m.logged(x, next, r) <==> m.inner().logged(fx, next.inner(), r),
{
    assert(call_ensures(m.function(), (x,), fx));
}

/// A logger made safe reports success on every item, whatever the logger
/// that it wraps reported.
pub proof fn lemma_safe_succeeds<I, L: Logger<I>, E>(
    s: Safe<L, E>,
    x: I,
    next: Safe<L, E>,
    r: Result<(), E>,
)
    requires
        s.logged(x, next, r),
    ensures
        r is Ok,
        exists|r1: Result<(), L::Error>| #[trigger] s.inner().logged(x, next.inner(), r1),
{
}

/// The empty logger accepts every item, succeeds, and stays as it was.
pub proof fn lemma_empty_neutral<I, E>(e: Empty<I, E>, x: I, next: Empty<I, E>, r: Result<(), E>)
    ensures
        e.can_log(x),
        e.logged(x, next, r) <==> next == e && r is Ok,
{
}

/// Chaining a logger `c` before the empty logger behaves as `c` alone, when
/// cloning `x` gives back a value equal to `x`.
pub proof fn lemma_chain_empty_right<I: Clone, C: Logger<I>>(
    ch: Chain<C, Empty<I, C::Error>>,
    x: I,
    next: Chain<C, Empty<I, C::Error>>,
    r: Result<(), C::Error>,
)
    requires
        forall|y: I| #[trigger] strictly_cloned(x, y) ==> y == x,
    ensures
        ch.can_log(x) <==> ch.first().can_log(x),
        ch.logged(x, next, r) <==> ch.first().logged(x, next.first(), r) && next.second()
            == ch.second(),
{
    if ch.logged(x, next, r) {
        let (y, r1) = choose|y: I, r1: Result<(), C::Error>|
            {
                &&& cloned(x, y)
                &&& #[trigger] ch.first().logged(y, next.first(), r1)
                &&& match r1 {
                    Err(e) => r == Err::<(), C::Error>(e) && next.second() == ch.second(),
                    Ok(_) => ch.second().logged(x, next.second(), r),
                }
            };
        assert(y == x);
        if r1 is Ok {
            assert(ch.second().logged(x, next.second(), r));
            assert(r->Ok_0 == r1->Ok_0);
            assert(r == r1);
        } else {
            assert(r1 == r);
        }
    }
    if ch.first().logged(x, next.first(), r) && next.second() == ch.second() {
        assert(cloned(x, x));
        assert(ch.first().logged(x, next.first(), r));
    }
}

/// Chaining the empty logger before a logger `c` behaves as `c` alone.
pub proof fn lemma_chain_empty_left<I: Clone, C: Logger<I>>(
    ch: Chain<Empty<I, C::Error>, C>,
    x: I,
    next: Chain<Empty<I, C::Error>, C>,
    r: Result<(), C::Error>,
)
    ensures
        ch.can_log(x) <==> ch.second().can_log(x),
        ch.logged(x, next, r) <==> ch.second().logged(x, next.second(), r) && next.first()
            == ch.first(),
{
    if ch.second().logged(x, next.second(), r) && next.first() == ch.first() {
        assert(cloned(x, x));
        assert(ch.first().logged(x, next.first(), Ok::<(), C::Error>(())));
    }
}

/// An extender appends the items in the order they are logged: along any run
/// of `log` calls, from `states[i]` with `items[i]` to `states[i + 1]`, the
/// container ends as it began followed by every item, in order.
pub proof fn lemma_extender_keeps_order<I>(
    states: Seq<Extender<Vec<I>, I>>,
    items: Seq<I>,
    results: Seq<Result<(), Infallible>>,
)
    requires
        states.len() == items.len() + 1,
        results.len() == items.len(),
        forall|i: int|
            0 <= i < items.len() ==> #[trigger] states[i].logged(items[i], states[i + 1], results[i]),
    ensures
        states.last().contents()@ == states[0].contents()@ + items,
    decreases items.len(),
{
    if items.len() == 0 {
        assert(states[0].contents()@ + items =~= states[0].contents()@);
    } else {
        let n = items.len() - 1;
        lemma_extender_keeps_order(states.drop_last(), items.drop_last(), results.drop_last());
        assert(states[n].logged(items[n], states[n + 1], results[n]));
        assert(states.drop_last().last() == states[n]);
        assert(states[0].contents()@ + items =~= (states[0].contents()@ + items.drop_last()).push(
            items[n],
        ));
    }
}

} // verus!
