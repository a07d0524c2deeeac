//! Association lists: sequences of key/value pairs read as finite maps,
//! where a later pair overrides an earlier one with the same key.
use vstd::prelude::*;

verus! {

/// The map that a sequence of pairs denotes; the last pair for a key wins.
pub open spec fn pairs_map<K, V>(ps: Seq<(K, V)>) -> Map<K, V>
    decreases ps.len(),
{
    if ps.len() == 0 {
        Map::empty()
    } else {
        pairs_map(ps.drop_last()).insert(ps.last().0, ps.last().1)
    }
}

/// No key occurs twice.
pub open spec fn keys_distinct<K, V>(ps: Seq<(K, V)>) -> bool {
    forall|i: int, j: int| 0 <= i < j < ps.len() ==> ps[i].0 != ps[j].0
}

/// Some pair carries key `k`.
pub open spec fn has_key<K, V>(ps: Seq<(K, V)>, k: K) -> bool {
    exists|i: int| 0 <= i < ps.len() && ps[i].0 == k
}

/// The map's keys are exactly the keys of the pairs.
pub proof fn lemma_pairs_map_dom<K, V>(ps: Seq<(K, V)>, k: K)
    ensures
        pairs_map(ps).contains_key(k) <==> has_key(ps, k),
    decreases ps.len(),
{
    if ps.len() > 0 {
        let init = ps.drop_last();
        lemma_pairs_map_dom(init, k);
        if has_key(init, k) {
            let i = choose|i: int| 0 <= i < init.len() && init[i].0 == k;
            assert(ps[i].0 == k);
        }
        if has_key(ps, k) && ps.last().0 != k {
            let i = choose|i: int| 0 <= i < ps.len() && ps[i].0 == k;
            assert(i < init.len() && init[i].0 == k);
        }
    }
}

/// With distinct keys, every pair is found in the map.
pub proof fn lemma_pairs_map_at<K, V>(ps: Seq<(K, V)>, i: int)
    requires
        keys_distinct(ps),
        0 <= i < ps.len(),
    ensures
        pairs_map(ps).contains_key(ps[i].0),
        pairs_map(ps)[ps[i].0] == ps[i].1,
    decreases ps.len(),
{
    if i < ps.len() - 1 {
        let init = ps.drop_last();
        assert(init[i] == ps[i]);
        lemma_pairs_map_at(init, i);
    }
}

/// Appending a pair inserts it.
pub proof fn lemma_pairs_map_push<K, V>(ps: Seq<(K, V)>, k: K, v: V)
    ensures
        pairs_map(ps.push((k, v))) == pairs_map(ps).insert(k, v),
{
    assert(ps.push((k, v)).drop_last() =~= ps);
}

/// Replacing the value of an existing pair inserts the new value.
pub proof fn lemma_pairs_map_update<K, V>(ps: Seq<(K, V)>, i: int, v: V)
    requires
        keys_distinct(ps),
        0 <= i < ps.len(),
    ensures
        pairs_map(ps.update(i, (ps[i].0, v))) =~= pairs_map(ps).insert(ps[i].0, v),
    decreases ps.len(),
{
    let qs = ps.update(i, (ps[i].0, v));
    let init = ps.drop_last();
    if i == ps.len() - 1 {
        assert(qs.drop_last() =~= init);
    } else {
        assert(qs.drop_last() =~= init.update(i, (init[i].0, v)));
        lemma_pairs_map_update(init, i, v);
        assert(ps.last().0 != ps[i].0);
    }
}

} // verus!
