//! The store of committed pairs: a vector of string pairs with pairwise
//! distinct keys, modelled as a finite map from key characters to value
//! characters.

use vstd::prelude::*;

verus! {

/// No two pairs share a key, so the vector denotes a map.
pub open spec fn keys_unique(pairs: Seq<(String, String)>) -> bool {
    forall|i: int, j: int|
        0 <= i < j < pairs.len() ==> pairs[i].0@ != pairs[j].0@
}

/// The map a vector of pairs denotes; a later pair wins over an earlier one
/// with the same key.
pub open spec fn map_of_pairs(pairs: Seq<(String, String)>) -> Map<Seq<char>, Seq<char>>
    decreases pairs.len(),
{
    if pairs.len() == 0 {
        Map::empty()
    } else {
        map_of_pairs(pairs.drop_last()).insert(pairs.last().0@, pairs.last().1@)
    }
}

/// Appending a pair denotes inserting it into the map.
pub proof fn lemma_map_of_pairs_push(pairs: Seq<(String, String)>, p: (String, String))
    ensures
        map_of_pairs(pairs.push(p)) == map_of_pairs(pairs).insert(p.0@, p.1@),
{
    assert(pairs.push(p).drop_last() =~= pairs);
}

/// Replacing the pair at `i` by one with an equal key denotes inserting the
/// new value for that key.
pub proof fn lemma_map_of_pairs_update(pairs: Seq<(String, String)>, i: int, p: (String, String))
    requires
        keys_unique(pairs),
        0 <= i < pairs.len(),
        p.0@ == pairs[i].0@,
    ensures
        map_of_pairs(pairs.update(i, p)) == map_of_pairs(pairs).insert(p.0@, p.1@),
    decreases pairs.len(),
{
    let upd = pairs.update(i, p);
    if i == pairs.len() - 1 {
        assert(upd.drop_last() =~= pairs.drop_last());
    } else {
        assert(upd.drop_last() =~= pairs.drop_last().update(i, p));
        assert(keys_unique(pairs.drop_last())) by {
            assert forall|a: int, b: int|
                0 <= a < b < pairs.drop_last().len() implies pairs.drop_last()[a].0@
                != pairs.drop_last()[b].0@ by {
                assert(pairs[a].0@ != pairs[b].0@);
            }
        }
        lemma_map_of_pairs_update(pairs.drop_last(), i, p);
        assert(upd.last() == pairs.last());
        // The last key differs from the updated one, so the two inserts
        // commute.
        assert(pairs.last().0@ != p.0@);
    }
}

/// Replacing the pair at `i` by one with an equal key keeps the keys
/// pairwise distinct.
pub proof fn lemma_update_keeps_keys_unique(
    pairs: Seq<(String, String)>,
    i: int,
    p: (String, String),
)
    requires
        keys_unique(pairs),
        0 <= i < pairs.len(),
        p.0@ == pairs[i].0@,
    ensures
        keys_unique(pairs.update(i, p)),
{
    let upd = pairs.update(i, p);
    assert forall|a: int, b: int| 0 <= a < b < upd.len() implies upd[a].0@ != upd[b].0@ by {
        assert(pairs[a].0@ != pairs[b].0@);
    }
}

/// Appending a pair whose key occurs nowhere keeps the keys pairwise
/// distinct.
pub proof fn lemma_push_keeps_keys_unique(pairs: Seq<(String, String)>, p: (String, String))
    requires
        keys_unique(pairs),
        forall|j: int| 0 <= j < pairs.len() ==> pairs[j].0@ != p.0@,
    ensures
        keys_unique(pairs.push(p)),
{
}

} // verus!
