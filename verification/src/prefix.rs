//! The leading part of a sequence of attempts: what came before the first
//! one that failed.

use vstd::prelude::*;

verus! {

/// The first `n` entries of `s` are all `Some`, and entry `n` is the end of
/// `s` or is `None`.
pub open spec fn breaks_at<T>(s: Seq<Option<T>>, n: int) -> bool {
    &&& 0 <= n <= s.len()
    &&& forall|i: int| 0 <= i < n ==> (#[trigger] s[i]) is Some
    &&& n < s.len() ==> s[n] is None
}

/// The index of the first `None` in `s`, or the length of `s` if there is
/// none.
pub open spec fn first_none<T>(s: Seq<Option<T>>) -> int {
    choose|n: int| breaks_at(s, n)
}

/// The values of the first `n` entries of `s`.
pub open spec fn firsts<T>(s: Seq<Option<T>>, n: int) -> Seq<T> {
    Seq::new(n as nat, |i: int| s[i].unwrap())
}

/// The values that stand in `s` before its first `None`, in their order.
pub open spec fn leading<T>(s: Seq<Option<T>>) -> Seq<T> {
    firsts(s, first_none(s))
}

/// A sequence breaks at one place only.
pub proof fn lemma_breaks_once<T>(s: Seq<Option<T>>, n: int)
    requires
        breaks_at(s, n),
    ensures
        first_none(s) == n,
        leading(s) == firsts(s, n),
        leading(s).len() == n,
{
    let m = first_none(s);
    assert(breaks_at(s, m));
    if m < n {
        assert(s[m] is Some);
    }
    if n < m {
        assert(s[n] is Some);
    }
}

/// Every sequence breaks somewhere, so `leading` is no longer than the
/// sequence and holds the values of its first entries.
pub proof fn lemma_leading<T>(s: Seq<Option<T>>)
    ensures
        breaks_at(s, first_none(s)),
        leading(s).len() == first_none(s),
        leading(s).len() <= s.len(),
        forall|i: int| 0 <= i < leading(s).len() ==> s[i] == Some(#[trigger] leading(s)[i]),
{
    lemma_breaks_somewhere(s, 0);
}

/// If the first `n` entries of `s` are `Some`, `s` breaks at `n` or later.
proof fn lemma_breaks_somewhere<T>(s: Seq<Option<T>>, n: int)
    requires
        0 <= n <= s.len(),
        forall|i: int| 0 <= i < n ==> (#[trigger] s[i]) is Some,
    ensures
        exists|m: int| breaks_at(s, m),
    decreases s.len() - n,
{
    if n < s.len() && s[n] is Some {
        lemma_breaks_somewhere(s, n + 1);
    } else {
        assert(breaks_at(s, n));
    }
}

} // verus!
