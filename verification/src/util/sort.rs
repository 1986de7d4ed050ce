//! A stable ordering of positions by a numeric key.
use vstd::prelude::*;

verus! {

/// Whether position `a` comes before position `b`: smaller key first, and
/// the earlier position first among equal keys.
pub open spec fn key_before(keys: Seq<i64>, a: usize, b: usize) -> bool {
    keys[a as int] < keys[b as int] || (keys[a as int] == keys[b as int] && a < b)
}

/// Whether the positions are in key order.
pub open spec fn in_key_order(keys: Seq<i64>, s: Seq<usize>) -> bool {
    forall|i: int, j: int| 0 <= i < j < s.len() ==> key_before(keys, #[trigger] s[i], #[trigger] s[j])
}

/// Whether `s` holds every position of `keys` exactly once.
pub open spec fn is_arrangement(keys: Seq<i64>, s: Seq<usize>) -> bool {
    &&& s.len() == keys.len()
    &&& forall|p: usize| #[trigger] s.contains(p) <==> p < keys.len()
}

fn key_before_exec(keys: &[i64], a: usize, b: usize) -> (r: bool)
    requires
        a < keys@.len(),
        b < keys@.len(),
    ensures
        r == key_before(keys@, a, b),
{
    keys[a] < keys[b] || (keys[a] == keys[b] && a < b)
}

fn insert_by_key(keys: &[i64], sorted: &mut Vec<usize>, p: usize)
    requires
        p < keys@.len(),
        forall|i: int| 0 <= i < old(sorted)@.len() ==> old(sorted)@[i] < keys@.len(),
        in_key_order(keys@, old(sorted)@),
        !old(sorted)@.contains(p),
    ensures
        in_key_order(keys@, final(sorted)@),
        final(sorted)@.len() == old(sorted)@.len() + 1,
        forall|x: usize| #[trigger] final(sorted)@.contains(x) <==> (old(sorted)@.contains(x) || x == p),
        forall|i: int| 0 <= i < final(sorted)@.len() ==> final(sorted)@[i] < keys@.len(),
{
    let mut k: usize = 0;
    while k < sorted.len() && key_before_exec(keys, sorted[k], p)
        invariant
            k <= sorted@.len(),
            p < keys@.len(),
            forall|i: int| 0 <= i < sorted@.len() ==> sorted@[i] < keys@.len(),
            forall|i: int| 0 <= i < k ==> key_before(keys@, #[trigger] sorted@[i], p),
        decreases sorted@.len() - k,
    {
        k = k + 1;
    }
    let ghost before = sorted@;
    proof {
        assert forall|i: int| k <= i < before.len() implies key_before(keys@, p, #[trigger] before[i]) by {
            assert(!key_before(keys@, before[k as int], p));
            assert(before[k as int] != p);
            if i > k {
                assert(key_before(keys@, before[k as int], before[i]));
            }
        }
        before.insert_ensures(k as int, p);
    }
    sorted.insert(k, p);
    proof {
        let after = sorted@;
        assert forall|x: usize| #[trigger] after.contains(x) <==> (before.contains(x) || x == p) by {
            if after.contains(x) {
                let j = choose|j: int| 0 <= j < after.len() && after[j] == x;
                if j < k {
                    assert(before[j] == x);
                } else if j > k {
                    assert(before[j - 1] == x);
                }
            }
            if before.contains(x) {
                let j = choose|j: int| 0 <= j < before.len() && before[j] == x;
                if j < k {
                    assert(after[j] == x);
                } else {
                    assert(after[j + 1] == x);
                }
            }
            if x == p {
                assert(after[k as int] == p);
            }
        }
        assert forall|i: int, j: int| 0 <= i < j < after.len() implies key_before(keys@, #[trigger] after[i], #[trigger] after[j]) by {
            if j < k {
                assert(after[i] == before[i] && after[j] == before[j]);
            } else if j == k {
                assert(after[i] == before[i]);
            } else if i < k {
                assert(after[i] == before[i] && after[j] == before[j - 1]);
                assert(key_before(keys@, p, before[j - 1]));
                assert(key_before(keys@, before[i], p));
            } else if i == k {
                assert(after[j] == before[j - 1]);
            } else {
                assert(after[i] == before[i - 1] && after[j] == before[j - 1]);
            }
        }
    }
}

/// The positions of `keys`, ordered by key; equal keys keep their order.
pub fn stable_order(keys: &[i64]) -> (r: Vec<usize>)
    ensures
        is_arrangement(keys@, r@),
        in_key_order(keys@, r@),
{
    let mut sorted: Vec<usize> = Vec::new();
    let mut k: usize = 0;
    while k < keys.len()
        invariant
            k <= keys@.len(),
            sorted@.len() == k,
            in_key_order(keys@, sorted@),
            forall|i: int| 0 <= i < sorted@.len() ==> sorted@[i] < keys@.len(),
            forall|x: usize| #[trigger] sorted@.contains(x) <==> x < k,
        decreases keys@.len() - k,
    {
        insert_by_key(keys, &mut sorted, k);
        k = k + 1;
    }
    sorted
}

} // verus!
