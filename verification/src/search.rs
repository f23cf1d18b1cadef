//! Searching and filtering sequences: the facts that loops over a sequence
//! rest on.

use vstd::prelude::*;

verus! {

/// Whether one of the first `n` elements of `s` satisfies `p`.
pub open spec fn any_before<T>(s: Seq<T>, p: spec_fn(T) -> bool, n: int) -> bool {
    exists|j: int| 0 <= j < n && j < s.len() && p(#[trigger] s[j])
}

/// Whether an element of `s` satisfies `p`.
pub open spec fn any<T>(s: Seq<T>, p: spec_fn(T) -> bool) -> bool {
    any_before(s, p, s.len() as int)
}

/// The first element of `s` that satisfies `p`.
pub open spec fn find_first<T>(s: Seq<T>, p: spec_fn(T) -> bool) -> Option<T>
    decreases s.len(),
{
    if s.len() == 0 {
        None
    } else if p(s.first()) {
        Some(s.first())
    } else {
        find_first(s.drop_first(), p)
    }
}

/// `find_first` gives `s[i]` where `i` is the least index at which `p` holds.
pub proof fn lemma_find_first_at<T>(s: Seq<T>, p: spec_fn(T) -> bool, i: int)
    requires
        0 <= i < s.len(),
        p(s[i]),
        forall|j: int| 0 <= j < i ==> !p(#[trigger] s[j]),
    ensures
        find_first(s, p) == Some(s[i]),
    decreases s.len(),
{
    if i > 0 {
        let rest = s.drop_first();
        assert(!p(s[0]));
        assert forall|j: int| 0 <= j < i - 1 implies !p(#[trigger] rest[j]) by {
            assert(rest[j] == s[j + 1]);
        }
        lemma_find_first_at(rest, p, i - 1);
    }
}

/// `find_first` gives nothing exactly when `p` holds nowhere in `s`.
pub proof fn lemma_find_first_none<T>(s: Seq<T>, p: spec_fn(T) -> bool)
    ensures
        find_first(s, p) is None <==> forall|j: int| 0 <= j < s.len() ==> !p(#[trigger] s[j]),
    decreases s.len(),
{
    if s.len() > 0 {
        let rest = s.drop_first();
        lemma_find_first_none(rest, p);
        if p(s[0]) {
        } else if find_first(rest, p) is None {
            assert forall|j: int| 0 <= j < s.len() implies !p(#[trigger] s[j]) by {
                if j > 0 {
                    assert(rest[j - 1] == s[j]);
                }
            }
        } else {
            let j = choose|j: int| 0 <= j < rest.len() && p(#[trigger] rest[j]);
            assert(s[j + 1] == rest[j]);
        }
    }
}

/// What `find_first` gives satisfies `p` and occurs in `s`, with nothing
/// before it that satisfies `p`.
pub proof fn lemma_find_first_some<T>(s: Seq<T>, p: spec_fn(T) -> bool)
    requires
        find_first(s, p) is Some,
    ensures
        exists|i: int|
            0 <= i < s.len() && #[trigger] s[i] == find_first(s, p)->0 && p(s[i]) && forall|j: int|
                0 <= j < i ==> !p(#[trigger] s[j]),
    decreases s.len(),
{
    if p(s.first()) {
        assert(s[0] == find_first(s, p)->0);
    } else {
        let rest = s.drop_first();
        lemma_find_first_some(rest, p);
        let i = choose|i: int|
            0 <= i < rest.len() && #[trigger] rest[i] == find_first(rest, p)->0 && p(rest[i])
                && forall|j: int| 0 <= j < i ==> !p(#[trigger] rest[j]);
        assert(s[i + 1] == rest[i]);
        assert forall|j: int| 0 <= j < i + 1 implies !p(#[trigger] s[j]) by {
            if j > 0 {
                assert(rest[j - 1] == s[j]);
            }
        }
    }
}

/// The position of the first element of `s` that satisfies `p`; the length
/// of `s` where there is none.
pub open spec fn first_position<T>(s: Seq<T>, p: spec_fn(T) -> bool) -> int
    decreases s.len(),
{
    if s.len() == 0 || p(s.first()) {
        0
    } else {
        1 + first_position(s.drop_first(), p)
    }
}

/// The position of the last element of `s` that satisfies `p`; `-1` where
/// there is none.
pub open spec fn last_position<T>(s: Seq<T>, p: spec_fn(T) -> bool) -> int
    decreases s.len(),
{
    if s.len() == 0 {
        -1
    } else if p(s.last()) {
        s.len() - 1
    } else {
        last_position(s.drop_last(), p)
    }
}

/// `first_position` is the position before which nothing satisfies `p` and
/// at which, unless it is the end, `p` holds.
pub proof fn lemma_first_position<T>(s: Seq<T>, p: spec_fn(T) -> bool, i: int)
    requires
        0 <= i <= s.len(),
        forall|j: int| 0 <= j < i ==> !p(#[trigger] s[j]),
        i < s.len() ==> p(s[i]),
    ensures
        first_position(s, p) == i,
    decreases s.len(),
{
    if i > 0 {
        let rest = s.drop_first();
        assert(!p(s[0]));
        assert forall|j: int| 0 <= j < i - 1 implies !p(#[trigger] rest[j]) by {
            assert(rest[j] == s[j + 1]);
        }
        lemma_first_position(rest, p, i - 1);
    }
}

/// `last_position` is the position behind which nothing satisfies `p` and
/// at which, unless it is `-1`, `p` holds.
pub proof fn lemma_last_position<T>(s: Seq<T>, p: spec_fn(T) -> bool, i: int)
    requires
        -1 <= i < s.len(),
        forall|j: int| i < j < s.len() ==> !p(#[trigger] s[j]),
        0 <= i ==> p(s[i]),
    ensures
        last_position(s, p) == i,
    decreases s.len(),
{
    if s.len() > 0 && i < s.len() - 1 {
        let rest = s.drop_last();
        assert(!p(s[s.len() - 1]));
        assert forall|j: int| i < j < rest.len() implies !p(#[trigger] rest[j]) by {
            assert(rest[j] == s[j]);
        }
        if 0 <= i {
            assert(rest[i] == s[i]);
        }
        lemma_last_position(rest, p, i);
    }
}

/// Filtering one element more: the step of a loop that filters a sequence
/// from left to right.
pub proof fn lemma_filter_step<T>(s: Seq<T>, p: spec_fn(T) -> bool, i: int)
    requires
        0 <= i < s.len(),
    ensures
        s.take(i + 1).filter(p) == if p(s[i]) {
            s.take(i).filter(p).push(s[i])
        } else {
            s.take(i).filter(p)
        },
{
    reveal(Seq::filter);
    assert(s.take(i + 1).drop_last() =~= s.take(i));
    assert(s.take(i + 1).last() == s[i]);
}

/// A filter that no element passes leaves nothing.
pub proof fn lemma_filter_none<T>(s: Seq<T>, p: spec_fn(T) -> bool)
    requires
        forall|i: int| 0 <= i < s.len() ==> !p(#[trigger] s[i]),
    ensures
        s.filter(p).len() == 0,
    decreases s.len(),
{
    reveal(Seq::filter);
    if s.len() > 0 {
        lemma_filter_none(s.drop_last(), p);
    }
}

} // verus!
