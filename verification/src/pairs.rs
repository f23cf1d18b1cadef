//! Lists of pairs of a name and a value that stand for maps.

use vstd::prelude::*;

verus! {

/// The map that a list of pairs stands for; of two pairs with one key the
/// later counts.
pub open spec fn pairs_map<V>(pairs: Seq<(Seq<char>, V)>) -> Map<Seq<char>, V>
    decreases pairs.len(),
{
    if pairs.len() == 0 {
        Map::empty()
    } else {
        pairs_map(pairs.drop_last()).insert(pairs.last().0, pairs.last().1)
    }
}

/// Whether no key occurs twice in `pairs`.
pub open spec fn distinct_keys<V>(pairs: Seq<(Seq<char>, V)>) -> bool {
    forall|i: int, j: int|
        0 <= i < j < pairs.len() ==> (#[trigger] pairs[i]).0 != (#[trigger] pairs[j]).0
}

/// A key that occurs in no pair is not in the map.
pub proof fn lemma_pairs_map_absent<V>(pairs: Seq<(Seq<char>, V)>, key: Seq<char>)
    requires
        forall|i: int| 0 <= i < pairs.len() ==> (#[trigger] pairs[i]).0 != key,
    ensures
        !pairs_map(pairs).dom().contains(key),
    decreases pairs.len(),
{
    if pairs.len() > 0 {
        let rest = pairs.drop_last();
        assert forall|i: int| 0 <= i < rest.len() implies (#[trigger] rest[i]).0 != key by {
            assert(rest[i] == pairs[i]);
        }
        lemma_pairs_map_absent(rest, key);
        assert(pairs[pairs.len() - 1].0 != key);
    }
}

/// Where no key occurs twice, the map gives for the key of a pair the value
/// of that pair.
pub proof fn lemma_pairs_map_present<V>(pairs: Seq<(Seq<char>, V)>, i: int)
    requires
        distinct_keys(pairs),
        0 <= i < pairs.len(),
    ensures
        pairs_map(pairs).dom().contains(pairs[i].0),
        pairs_map(pairs)[pairs[i].0] == pairs[i].1,
    decreases pairs.len(),
{
    if i < pairs.len() - 1 {
        let rest = pairs.drop_last();
        assert(distinct_keys(rest)) by {
            assert forall|a: int, b: int| 0 <= a < b < rest.len() implies (#[trigger] rest[a]).0 != (
            #[trigger] rest[b]).0 by {
                assert(rest[a] == pairs[a] && rest[b] == pairs[b]);
            }
        }
        lemma_pairs_map_present(rest, i);
        assert(rest[i] == pairs[i]);
        assert(pairs[i].0 != pairs[pairs.len() - 1].0);
    }
}

/// Where no key occurs twice, replacing the value of one pair puts that
/// value into the map under the key of the pair.
pub proof fn lemma_pairs_map_update<V>(
    pairs: Seq<(Seq<char>, V)>,
    i: int,
    value: V,
)
    requires
        distinct_keys(pairs),
        0 <= i < pairs.len(),
    ensures
        pairs_map(pairs.update(i, (pairs[i].0, value))) == pairs_map(pairs).insert(
            pairs[i].0,
            value,
        ),
    decreases pairs.len(),
{
    let updated = pairs.update(i, (pairs[i].0, value));
    if i == pairs.len() - 1 {
        assert(updated.drop_last() =~= pairs.drop_last());
        assert(pairs_map(updated) =~= pairs_map(pairs).insert(pairs[i].0, value));
    } else {
        let rest = pairs.drop_last();
        assert(distinct_keys(rest)) by {
            assert forall|a: int, b: int| 0 <= a < b < rest.len() implies (#[trigger] rest[a]).0 != (
            #[trigger] rest[b]).0 by {
                assert(rest[a] == pairs[a] && rest[b] == pairs[b]);
            }
        }
        assert(rest[i] == pairs[i]);
        lemma_pairs_map_update(rest, i, value);
        assert(updated.drop_last() =~= rest.update(i, (pairs[i].0, value)));
        assert(updated.last() == pairs.last());
        assert(pairs[i].0 != pairs[pairs.len() - 1].0);
        assert(pairs_map(updated) =~= pairs_map(pairs).insert(pairs[i].0, value));
    }
}

} // verus!
