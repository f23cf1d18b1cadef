//! Names in alphabetical order.

use crate::text::{chars_of, texts};
use vstd::prelude::*;

verus! {

/// Whether `a` stands before `b`, or is `b`, in the order of strings:
/// the first character in which they differ decides, and a string stands
/// before every string that it begins.
pub open spec fn lex_le(a: Seq<char>, b: Seq<char>) -> bool
    decreases a.len(),
{
    if a.len() == 0 {
        true
    } else if b.len() == 0 {
        false
    } else if a[0] != b[0] {
        a[0] < b[0]
    } else {
        lex_le(a.drop_first(), b.drop_first())
    }
}

/// Strings that begin alike are ordered as what follows the common
/// beginning.
pub proof fn lemma_lex_le_after_common(a: Seq<char>, b: Seq<char>, n: int)
    requires
        0 <= n <= a.len(),
        n <= b.len(),
        a.take(n) == b.take(n),
    ensures
        lex_le(a, b) == lex_le(a.skip(n), b.skip(n)),
    decreases n,
{
    if n == 0 {
        assert(a.skip(0) =~= a);
        assert(b.skip(0) =~= b);
    } else {
        assert(a[0] == a.take(n)[0]);
        assert(b[0] == b.take(n)[0]);
        let x = a.drop_first();
        let y = b.drop_first();
        let xs = x.take(n - 1);
        let ys = y.take(n - 1);
        assert(xs =~= ys) by {
            assert forall|k: int| 0 <= k < n - 1 implies (#[trigger] xs[k]) == ys[k] by {
                assert(xs[k] == a.take(n)[k + 1]);
                assert(ys[k] == b.take(n)[k + 1]);
            }
        }
        lemma_lex_le_after_common(x, y, n - 1);
        assert(x.skip(n - 1) =~= a.skip(n));
        assert(y.skip(n - 1) =~= b.skip(n));
    }
}

/// Whether `a` stands before `b`, or is `b`, in the order of strings.
pub fn str_le(a: &str, b: &str) -> (r: bool)
    ensures
        r == lex_le(a@, b@),
{
    let x = chars_of(a);
    let y = chars_of(b);
    let mut i: usize = 0;
    while i < x.len() && i < y.len()
        invariant
            x@ == a@,
            y@ == b@,
            i <= x.len(),
            i <= y.len(),
            a@.take(i as int) == b@.take(i as int),
        decreases x.len() - i,
    {
        if x[i] != y[i] {
            proof {
                lemma_lex_le_after_common(a@, b@, i as int);
            }
            return x[i] < y[i];
        }
        assert(a@.take(i + 1) =~= a@.take(i as int).push(x@[i as int]));
        assert(b@.take(i + 1) =~= b@.take(i as int).push(y@[i as int]));
        i += 1;
    }
    proof {
        lemma_lex_le_after_common(a@, b@, i as int);
    }
    x.len() <= y.len()
}

/// Of two strings, one stands before the other or they are equal.
pub proof fn lemma_lex_le_total(a: Seq<char>, b: Seq<char>)
    ensures
        lex_le(a, b) || lex_le(b, a),
    decreases a.len(),
{
    if a.len() > 0 && b.len() > 0 {
        if a[0] == b[0] {
            lemma_lex_le_total(a.drop_first(), b.drop_first());
        }
    }
}

/// The order of strings is transitive.
pub proof fn lemma_lex_le_transitive(a: Seq<char>, b: Seq<char>, c: Seq<char>)
    requires
        lex_le(a, b),
        lex_le(b, c),
    ensures
        lex_le(a, c),
    decreases a.len(),
{
    if a.len() > 0 && b.len() > 0 && c.len() > 0 && a[0] == b[0] && b[0] == c[0] {
        lemma_lex_le_transitive(a.drop_first(), b.drop_first(), c.drop_first());
    }
}

/// Whether the strings of `s` stand in order.
pub open spec fn is_sorted(s: Seq<Seq<char>>) -> bool {
    forall|i: int, j: int| 0 <= i < j < s.len() ==> lex_le(#[trigger] s[i], #[trigger] s[j])
}

/// Whether `sorted` holds the strings of `names`, each as often as `names`
/// holds it, in order.
pub open spec fn is_sorting_of(sorted: Seq<Seq<char>>, names: Seq<Seq<char>>) -> bool {
    is_sorted(sorted) && sorted.to_multiset() == names.to_multiset()
}

/// Putting a string into a sequence puts it into the multiset of the
/// sequence.
proof fn lemma_insert_to_multiset(s: Seq<Seq<char>>, i: int, x: Seq<char>)
    requires
        0 <= i <= s.len(),
    ensures
        s.insert(i, x).to_multiset() == s.to_multiset().insert(x),
{
    broadcast use vstd::seq_lib::group_to_multiset_ensures;

    let t = s.insert(i, x);
    assert(t.remove(i) =~= s);
    assert(t[i] == x);
    assert(t.remove(i).to_multiset() == t.to_multiset().remove(x));
    assert(t.contains(x));
    assert(t.to_multiset().count(x) > 0);
    assert(t.to_multiset() =~= s.to_multiset().insert(x));
}

/// The names in alphabetical order.
pub fn sort_names(names: &Vec<String>) -> (r: Vec<String>)
    ensures
        is_sorting_of(texts(r@), texts(names@)),
{
    let mut sorted: Vec<String> = Vec::new();
    let mut i: usize = 0;
    proof {
        assert(texts(sorted@) =~= Seq::empty());
        assert(texts(names@).take(0) =~= Seq::empty());
    }
    while i < names.len()
        invariant
            i <= names.len(),
            is_sorted(texts(sorted@)),
            texts(sorted@).to_multiset() == texts(names@).take(i as int).to_multiset(),
        decreases names.len() - i,
    {
        let name = names[i].clone();
        let mut k: usize = 0;
        while k < sorted.len() && str_le(sorted[k].as_str(), name.as_str())
            invariant
                k <= sorted.len(),
                forall|j: int| 0 <= j < k ==> lex_le(#[trigger] texts(sorted@)[j], name@),
            decreases sorted.len() - k,
        {
            assert(texts(sorted@)[k as int] == sorted@[k as int]@);
            k += 1;
        }
        let ghost before = texts(sorted@);
        proof {
            if k < sorted.len() {
                assert(before[k as int] == sorted@[k as int]@);
                lemma_lex_le_total(before[k as int], name@);
            }
        }
        sorted.insert(k, name);
        proof {
            let after = texts(sorted@);
            assert(after =~= before.insert(k as int, name@));
            lemma_insert_to_multiset(before, k as int, name@);
            assert(texts(names@).take(i + 1) =~= texts(names@).take(i as int).push(name@));
            broadcast use vstd::seq_lib::group_to_multiset_ensures;

            assert forall|a: int, b: int| 0 <= a < b < after.len() implies lex_le(
                #[trigger] after[a],
                #[trigger] after[b],
            ) by {
                if b < k {
                    assert(after[a] == before[a] && after[b] == before[b]);
                } else if b == k {
                    assert(after[a] == before[a]);
                } else if a == k {
                    assert(after[b] == before[b - 1]);
                    if b - 1 > k {
                        assert(lex_le(before[k as int], before[b - 1]));
                        lemma_lex_le_transitive(name@, before[k as int], before[b - 1]);
                    }
                } else if a < k {
                    assert(after[a] == before[a] && after[b] == before[b - 1]);
                } else {
                    assert(after[a] == before[a - 1] && after[b] == before[b - 1]);
                }
            }
        }
        i += 1;
    }
    proof {
        assert(texts(names@).take(i as int) =~= texts(names@));
    }
    sorted
}

/// The names in the opposite order.
pub fn reversed(names: &Vec<String>) -> (r: Vec<String>)
    ensures
        texts(r@) == texts(names@).reverse(),
{
    let mut out: Vec<String> = Vec::new();
    let n = names.len();
    let mut i: usize = 0;
    while i < n
        invariant
            n == names.len(),
            i <= n,
            out@.len() == i,
            forall|j: int| 0 <= j < i ==> (#[trigger] out@[j])@ == names@[n - 1 - j]@,
        decreases n - i,
    {
        out.push(names[n - 1 - i].clone());
        i += 1;
    }
    assert(texts(out@) =~= texts(names@).reverse());
    out
}

} // verus!
