//! Lists of key and value pairs with distinct keys, read as maps.
use vstd::prelude::*;

verus! {

/// The map a list of pairs stands for; a later pair wins over an earlier one
/// with the same key.
pub open spec fn pairs_map<V>(s: Seq<(Seq<char>, V)>) -> Map<Seq<char>, V>
    decreases s.len(),
{
    if s.len() == 0 {
        Map::empty()
    } else {
        pairs_map(s.drop_last()).insert(s.last().0, s.last().1)
    }
}

/// Whether no key occurs twice.
pub open spec fn distinct_keys<V>(s: Seq<(Seq<char>, V)>) -> bool {
    forall|i: int, j: int| 0 <= i < j < s.len() ==> (#[trigger] s[i]).0 != (#[trigger] s[j]).0
}

/// A key is in the map exactly when some pair has it.
pub proof fn lemma_pairs_map_dom<V>(s: Seq<(Seq<char>, V)>, k: Seq<char>)
    ensures
        pairs_map(s).contains_key(k) <==> exists|j: int| 0 <= j < s.len() && (#[trigger] s[j]).0 == k,
    decreases s.len(),
{
    if s.len() > 0 {
        let prev = s.drop_last();
        lemma_pairs_map_dom(prev, k);
        if exists|j: int| 0 <= j < prev.len() && (#[trigger] prev[j]).0 == k {
            let j = choose|j: int| 0 <= j < prev.len() && (#[trigger] prev[j]).0 == k;
            assert(s[j].0 == k);
        }
        if exists|j: int| 0 <= j < s.len() && (#[trigger] s[j]).0 == k {
            let j = choose|j: int| 0 <= j < s.len() && (#[trigger] s[j]).0 == k;
            if j < s.len() - 1 {
                assert(prev[j].0 == k);
            }
        }
    }
}

/// With distinct keys, each pair's key maps to its value.
pub proof fn lemma_pairs_map_index<V>(s: Seq<(Seq<char>, V)>, j: int)
    requires
        distinct_keys(s),
        0 <= j < s.len(),
    ensures
        pairs_map(s).contains_key(s[j].0),
        pairs_map(s)[s[j].0] == s[j].1,
    decreases s.len(),
{
    let prev = s.drop_last();
    if j < s.len() - 1 {
        assert(distinct_keys(prev));
        assert(prev[j] == s[j]);
        lemma_pairs_map_index(prev, j);
        assert(s[j].0 != s.last().0);
    }
}

/// Replacing the value of one pair is inserting into the map.
pub proof fn lemma_pairs_map_update<V>(s: Seq<(Seq<char>, V)>, j: int, v: V)
    requires
        distinct_keys(s),
        0 <= j < s.len(),
    ensures
        pairs_map(s.update(j, (s[j].0, v))) == pairs_map(s).insert(s[j].0, v),
        distinct_keys(s.update(j, (s[j].0, v))),
    decreases s.len(),
{
    let t = s.update(j, (s[j].0, v));
    let prev = s.drop_last();
    assert(distinct_keys(t)) by {
        assert forall|a: int, b: int| 0 <= a < b < t.len() implies (#[trigger] t[a]).0 != (#[trigger] t[b]).0 by {
            assert(t[a].0 == s[a].0 && t[b].0 == s[b].0);
        }
    }
    if j == s.len() - 1 {
        assert(t.drop_last() == prev);
        assert(pairs_map(t) =~= pairs_map(s).insert(s[j].0, v));
    } else {
        assert(distinct_keys(prev));
        lemma_pairs_map_update(prev, j, v);
        assert(t.drop_last() == prev.update(j, (prev[j].0, v)));
        assert(s[j].0 != s.last().0);
        assert(pairs_map(t) =~= pairs_map(s).insert(s[j].0, v));
    }
}

} // verus!
