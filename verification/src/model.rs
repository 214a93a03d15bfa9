//! The list operations as functions on mathematical sequences. The contracts
//! of the executable operations are stated with these.

use vstd::prelude::*;

verus! {

/// The first element, if there is one.
pub open spec fn front<T>(s: Seq<T>) -> Option<T> {
    if s.len() > 0 {
        Some(s[0])
    } else {
        None
    }
}

/// The last element, if there is one.
pub open spec fn back<T>(s: Seq<T>) -> Option<T> {
    if s.len() > 0 {
        Some(s[s.len() - 1])
    } else {
        None
    }
}

/// The element at index `i`, if `i` is within the sequence.
pub open spec fn element<T>(s: Seq<T>, i: int) -> Option<T> {
    if 0 <= i < s.len() {
        Some(s[i])
    } else {
        None
    }
}

/// The elements from index `i` on; empty when `i` is past the end.
pub open spec fn suffix<T>(s: Seq<T>, i: int) -> Seq<T> {
    if 0 <= i <= s.len() {
        s.skip(i)
    } else {
        Seq::empty()
    }
}

/// `v` placed before all of `s`.
pub open spec fn push_front<T>(s: Seq<T>, v: T) -> Seq<T> {
    seq![v] + s
}

/// `s` without its first element; `s` itself when it is empty.
pub open spec fn pop_front<T>(s: Seq<T>) -> Seq<T> {
    if s.len() > 0 {
        s.skip(1)
    } else {
        s
    }
}

/// `v` placed after all of `s`.
pub open spec fn push_back<T>(s: Seq<T>, v: T) -> Seq<T> {
    s.push(v)
}

/// `s` without its last element; `s` itself when it is empty.
pub open spec fn pop_back<T>(s: Seq<T>) -> Seq<T> {
    if s.len() > 0 {
        s.take(s.len() - 1)
    } else {
        s
    }
}

/// `v` placed so that it stands at index `i`; `s` itself when `i` is past
/// the end.
pub open spec fn insert<T>(s: Seq<T>, i: int, v: T) -> Seq<T> {
    if 0 <= i <= s.len() {
        s.take(i) + seq![v] + s.skip(i)
    } else {
        s
    }
}

/// `s` without the element at index `i`; `s` itself when there is none.
pub open spec fn delete<T>(s: Seq<T>, i: int) -> Seq<T> {
    if 0 <= i < s.len() {
        s.take(i) + s.skip(i + 1)
    } else {
        s
    }
}

/// All of `s` followed by all of `t`.
pub open spec fn concat<T>(s: Seq<T>, t: Seq<T>) -> Seq<T> {
    s + t
}

/// What is still to come of `s` after `n` steps of an iteration, each of
/// which takes the first element if there is one.
pub open spec fn advance<T>(s: Seq<T>, n: nat) -> Seq<T>
    decreases n,
{
    if n == 0 {
        s
    } else {
        advance(pop_front(s), (n - 1) as nat)
    }
}

/// What a list keeps when it is split after index `at`: the elements up to
/// and including `at`, or all of them when there is no such index.
pub open spec fn split_keep<T>(s: Seq<T>, at: int) -> Seq<T> {
    if 0 <= at < s.len() {
        s.take(at + 1)
    } else {
        s
    }
}

/// What a split after index `at` hands out: the elements behind `at`, or
/// nothing when there is no such index.
pub open spec fn split_rest<T>(s: Seq<T>, at: int) -> Seq<T> {
    if 0 <= at < s.len() {
        s.skip(at + 1)
    } else {
        Seq::empty()
    }
}

/// `s` with the element at index `i` replaced by `v`.
pub open spec fn replace<T>(s: Seq<T>, i: int, v: T) -> Seq<T>
    recommends
        0 <= i < s.len(),
{
    s.update(i, v)
}

/// Walking one step down a sequence: if `s` from `k` on is `a` followed by
/// `t`, then `t` is `s` from `k + 1` on.
pub proof fn lemma_step<T>(s: Seq<T>, k: int, a: T, t: Seq<T>)
    requires
        0 <= k <= s.len(),
        s.skip(k) == seq![a] + t,
    ensures
        k < s.len(),
        s[k] == a,
        t == s.skip(k + 1),
        s.take(k).push(a) == s.take(k + 1),
        s.take(k) + s.skip(k) == s,
{
    assert(s.skip(k).len() == 1 + t.len());
    assert(s[k] == s.skip(k)[0]);
    assert(t =~= s.skip(k + 1)) by {
        assert forall|j: int| 0 <= j < t.len() implies t[j] == s.skip(k + 1)[j] by {
            assert(t[j] == (seq![a] + t)[j + 1]);
            assert(s.skip(k)[j + 1] == s[k + j + 1]);
        }
    }
    assert(s.take(k).push(a) =~= s.take(k + 1));
    assert(s.take(k) + s.skip(k) =~= s);
}

/// Replacing the element at index `i` is keeping what stands before it and
/// what stands behind it.
pub proof fn lemma_replace<T>(s: Seq<T>, i: int, v: T)
    requires
        0 <= i < s.len(),
    ensures
        s.take(i) + (seq![v] + s.skip(i + 1)) == s.update(i, v),
{
    assert(s.take(i) + (seq![v] + s.skip(i + 1)) =~= s.update(i, v));
}

} // verus!
