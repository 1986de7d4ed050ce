//! A stable ordering of positions by a text key, character by character,
//! as strings compare.
use vstd::prelude::*;
use crate::util::text::{str_chars, string_views};

verus! {

/// Whether text `a` comes strictly before text `b`: at the first character
/// where they differ, the smaller code point first; a proper prefix first.
/// (This is the order of `String`'s comparison, as UTF-8 keeps code point
/// order.)
pub open spec fn text_lt(a: Seq<char>, b: Seq<char>) -> bool
    decreases a.len(),
{
    if b.len() == 0 {
        false
    } else if a.len() == 0 {
        true
    } else if a[0] != b[0] {
        a[0] < b[0]
    } else {
        text_lt(a.drop_first(), b.drop_first())
    }
}

/// No text comes before itself.
pub proof fn lemma_text_lt_irreflexive(a: Seq<char>)
    ensures
        !text_lt(a, a),
    decreases a.len(),
{
    if a.len() > 0 {
        lemma_text_lt_irreflexive(a.drop_first());
    }
}

/// Of two different texts, one comes before the other.
pub proof fn lemma_text_lt_total(a: Seq<char>, b: Seq<char>)
    requires
        a != b,
    ensures
        text_lt(a, b) || text_lt(b, a),
    decreases a.len(),
{
    if a.len() > 0 && b.len() > 0 && a[0] == b[0] {
        if a.drop_first() == b.drop_first() {
            assert(a =~= seq![a[0]] + a.drop_first());
            assert(b =~= seq![b[0]] + b.drop_first());
        }
        lemma_text_lt_total(a.drop_first(), b.drop_first());
    } else if a.len() > 0 && b.len() > 0 {
    } else if a.len() == 0 && b.len() == 0 {
        assert(a =~= b);
    }
}

/// The order of texts is transitive.
pub proof fn lemma_text_lt_transitive(a: Seq<char>, b: Seq<char>, c: Seq<char>)
    requires
        text_lt(a, b),
        text_lt(b, c),
    ensures
        text_lt(a, c),
    decreases a.len(),
{
    if a.len() > 0 && a[0] == b[0] && b[0] == c[0] {
        lemma_text_lt_transitive(a.drop_first(), b.drop_first(), c.drop_first());
    }
}

/// Whether position `a` comes before position `b`: the smaller text first,
/// and the earlier position first among equal texts.
pub open spec fn text_key_before(keys: Seq<Seq<char>>, a: usize, b: usize) -> bool {
    text_lt(keys[a as int], keys[b as int]) || (keys[a as int] == keys[b as int] && a < b)
}

/// Whether the positions are in the order of their texts.
pub open spec fn in_text_order(keys: Seq<Seq<char>>, s: Seq<usize>) -> bool {
    forall|i: int, j: int| 0 <= i < j < s.len() ==> text_key_before(keys, #[trigger] s[i], #[trigger] s[j])
}

/// Whether `s` holds every position of `keys` exactly once.
pub open spec fn is_text_arrangement(keys: Seq<Seq<char>>, s: Seq<usize>) -> bool {
    &&& s.len() == keys.len()
    &&& forall|p: usize| #[trigger] s.contains(p) <==> p < keys.len()
}

proof fn lemma_key_before_transitive(keys: Seq<Seq<char>>, a: usize, b: usize, c: usize)
    requires
        text_key_before(keys, a, b),
        text_key_before(keys, b, c),
    ensures
        text_key_before(keys, a, c),
{
    if text_lt(keys[a as int], keys[b as int]) && text_lt(keys[b as int], keys[c as int]) {
        lemma_text_lt_transitive(keys[a as int], keys[b as int], keys[c as int]);
    }
}

proof fn lemma_key_before_total(keys: Seq<Seq<char>>, a: usize, b: usize)
    requires
        a != b,
        !text_key_before(keys, a, b),
    ensures
        text_key_before(keys, b, a),
{
    if keys[a as int] != keys[b as int] {
        lemma_text_lt_total(keys[a as int], keys[b as int]);
    }
}

fn text_lt_exec(a: &Vec<char>, b: &Vec<char>) -> (r: bool)
    ensures
        r == text_lt(a@, b@),
{
    let mut i: usize = 0;
    assert(a@.skip(0) == a@ && b@.skip(0) == b@);
    while i < a.len() && i < b.len() && a[i] == b[i]
        invariant
            i <= a@.len(),
            i <= b@.len(),
            text_lt(a@, b@) == text_lt(a@.skip(i as int), b@.skip(i as int)),
        decreases a@.len() - i,
    {
        assert(a@.skip(i as int).drop_first() =~= a@.skip(i + 1));
        assert(b@.skip(i as int).drop_first() =~= b@.skip(i + 1));
        i = i + 1;
    }
    let ghost sa = a@.skip(i as int);
    let ghost sb = b@.skip(i as int);
    if i == b.len() {
        assert(sb.len() == 0);
        false
    } else if i == a.len() {
        assert(sa.len() == 0 && sb.len() > 0);
        true
    } else {
        assert(sa[0] == a@[i as int] && sb[0] == b@[i as int]);
        a[i] < b[i]
    }
}

fn text_key_before_exec(keys: &Vec<Vec<char>>, q: usize, p: usize, Ghost(ks): Ghost<Seq<Seq<char>>>) -> (r: bool)
    requires
        ks.len() == keys@.len(),
        forall|i: int| 0 <= i < ks.len() ==> #[trigger] ks[i] == keys@[i]@,
        q < keys@.len(),
        p < keys@.len(),
    ensures
        r == text_key_before(ks, q, p),
{
    proof {
        assert(ks[q as int] == keys@[q as int]@);
        assert(ks[p as int] == keys@[p as int]@);
    }
    if text_lt_exec(&keys[q], &keys[p]) {
        return true;
    }
    if text_lt_exec(&keys[p], &keys[q]) {
        return false;
    }
    proof {
        if ks[q as int] != ks[p as int] {
            lemma_text_lt_total(ks[q as int], ks[p as int]);
        }
    }
    q < p
}

fn insert_by_text(keys: &Vec<Vec<char>>, sorted: &mut Vec<usize>, p: usize, Ghost(ks): Ghost<Seq<Seq<char>>>)
    requires
        ks.len() == keys@.len(),
        forall|i: int| 0 <= i < ks.len() ==> #[trigger] ks[i] == keys@[i]@,
        p < keys@.len(),
        forall|i: int| 0 <= i < old(sorted)@.len() ==> old(sorted)@[i] < keys@.len(),
        in_text_order(ks, old(sorted)@),
        !old(sorted)@.contains(p),
    ensures
        in_text_order(ks, final(sorted)@),
        final(sorted)@.len() == old(sorted)@.len() + 1,
        forall|x: usize| #[trigger] final(sorted)@.contains(x) <==> (old(sorted)@.contains(x) || x == p),
        forall|i: int| 0 <= i < final(sorted)@.len() ==> final(sorted)@[i] < keys@.len(),
{
    let mut k: usize = 0;
    while k < sorted.len() && text_key_before_exec(keys, sorted[k], p, Ghost(ks))
        invariant
            k <= sorted@.len(),
            p < keys@.len(),
            ks.len() == keys@.len(),
            forall|i: int| 0 <= i < ks.len() ==> #[trigger] ks[i] == keys@[i]@,
            forall|i: int| 0 <= i < sorted@.len() ==> sorted@[i] < keys@.len(),
            forall|i: int| 0 <= i < k ==> text_key_before(ks, #[trigger] sorted@[i], p),
        decreases sorted@.len() - k,
    {
        k = k + 1;
    }
    let ghost before = sorted@;
    proof {
        if k < before.len() {
            let q = before[k as int];
            assert(ks[q as int] == keys@[q as int]@);
            assert(ks[p as int] == keys@[p as int]@);
            assert(q != p);
            if ks[q as int] == ks[p as int] {
                lemma_text_lt_irreflexive(ks[q as int]);
            }
            lemma_key_before_total(ks, q, p);
        }
        assert forall|i: int| k <= i < before.len() implies text_key_before(ks, p, #[trigger] before[i]) by {
            if i > k {
                assert(text_key_before(ks, before[k as int], before[i]));
                lemma_key_before_transitive(ks, p, before[k as int], before[i]);
            }
        }
        before.insert_ensures(k as int, p);
    }
    sorted.insert(k, p);
    proof {
        let after = sorted@;
        assert forall|x: usize| #[trigger] after.contains(x) <==> (before.contains(x) || x == p) by {
            if after.contains(x) {
                let j = choose|j: int| 0 <= j < after.len() && after[j] == x;
                if j < k {
                    assert(before[j] == x);
                } else if j > k {
                    assert(before[j - 1] == x);
                }
            }
            if before.contains(x) {
                let j = choose|j: int| 0 <= j < before.len() && before[j] == x;
                if j < k {
                    assert(after[j] == x);
                } else {
                    assert(after[j + 1] == x);
                }
            }
            if x == p {
                assert(after[k as int] == p);
            }
        }
        assert forall|i: int, j: int| 0 <= i < j < after.len() implies text_key_before(ks, #[trigger] after[i], #[trigger] after[j]) by {
            if j < k {
                assert(after[i] == before[i] && after[j] == before[j]);
            } else if j == k {
                assert(after[i] == before[i]);
            } else if i < k {
                assert(after[i] == before[i] && after[j] == before[j - 1]);
                assert(text_key_before(ks, p, before[j - 1]));
                assert(text_key_before(ks, before[i], p));
                lemma_key_before_transitive(ks, before[i], p, before[j - 1]);
            } else if i == k {
                assert(after[j] == before[j - 1]);
            } else {
                assert(after[i] == before[i - 1] && after[j] == before[j - 1]);
            }
        }
    }
}

/// Positions in text order are all different.
pub proof fn lemma_text_order_distinct(keys: Seq<Seq<char>>, s: Seq<usize>)
    requires
        in_text_order(keys, s),
    ensures
        forall|i: int, j: int| 0 <= i < j < s.len() ==> s[i] != s[j],
{
    assert forall|i: int, j: int| 0 <= i < j < s.len() implies s[i] != s[j] by {
        assert(text_key_before(keys, s[i], s[j]));
        lemma_text_lt_irreflexive(keys[s[i] as int]);
    }
}

/// The items taken in the order of the given positions (each position at
/// most once).
pub fn arrange<T>(items: Vec<T>, order: &Vec<usize>) -> (r: Vec<T>)
    requires
        forall|j: int| 0 <= j < order@.len() ==> order@[j] < items@.len(),
        forall|i: int, j: int| 0 <= i < j < order@.len() ==> order@[i] != order@[j],
    ensures
        r@.len() == order@.len(),
        forall|j: int| 0 <= j < order@.len() ==> r@[j] == items@[order@[j] as int],
{
    let ghost orig = items@;
    let n = items.len();
    let mut rest = items;
    let mut rev: Vec<Option<T>> = Vec::new();
    while rest.len() > 0
        invariant
            n == orig.len(),
            rest@ == orig.take(rest@.len() as int),
            rev@.len() + rest@.len() == n,
            forall|k: int| 0 <= k < rev@.len() ==> #[trigger] rev@[k] == Some(orig[n - 1 - k]),
        decreases rest@.len(),
    {
        let ghost before = rest@;
        match rest.pop() {
            Some(x) => {
                assert(x == orig[n - 1 - rev@.len()]);
                rev.push(Some(x));
                assert(rest@ =~= orig.take(rest@.len() as int));
            },
            None => {},
        }
    }
    let mut out: Vec<T> = Vec::new();
    let mut j: usize = 0;
    while j < order.len()
        invariant
            n == orig.len(),
            rev@.len() == n,
            j <= order@.len(),
            forall|k: int| 0 <= k < order@.len() ==> order@[k] < n,
            forall|a: int, b: int| 0 <= a < b < order@.len() ==> order@[a] != order@[b],
            forall|p: int| 0 <= p < n ==> #[trigger] rev@[n - 1 - p] == if (exists|k: int| 0 <= k < j && order@[k] == p) {
                None
            } else {
                Some(orig[p])
            },
            out@.len() == j,
            forall|k: int| 0 <= k < j ==> out@[k] == orig[order@[k] as int],
        decreases order@.len() - j,
    {
        let p = order[j];
        let idx = n - 1 - p;
        proof {
            assert(!(exists|k: int| 0 <= k < j && order@[k] == p as int));
            assert(rev@[n - 1 - p as int] == Some(orig[p as int]));
        }
        let ghost before = rev@;
        let taken = rev.remove(idx);
        rev.insert(idx, None);
        proof {
            assert(rev@ == before.update(idx as int, None::<T>));
            assert forall|q: int| 0 <= q < n implies #[trigger] rev@[n - 1 - q] == if (exists|k: int| 0 <= k < j + 1 && order@[k] == q) {
                None
            } else {
                Some(orig[q])
            } by {
                if q == p {
                    assert(order@[j as int] == q);
                } else {
                    assert(rev@[n - 1 - q] == before[n - 1 - q]);
                    if exists|k: int| 0 <= k < j + 1 && order@[k] == q {
                        let k = choose|k: int| 0 <= k < j + 1 && order@[k] == q;
                        assert(k < j);
                    }
                }
            }
        }
        match taken {
            Some(x) => {
                out.push(x);
            },
            None => {
                proof {
                    assert(false);
                }
            },
        }
        j = j + 1;
    }
    out
}

/// `x` put into `sorted` after every text that does not come after it.
pub open spec fn spec_insert_text(sorted: Seq<Seq<char>>, x: Seq<char>) -> Seq<Seq<char>>
    decreases sorted.len(),
{
    if sorted.len() == 0 {
        seq![x]
    } else if text_lt(x, sorted[0]) {
        seq![x] + sorted
    } else {
        seq![sorted[0]] + spec_insert_text(sorted.drop_first(), x)
    }
}

/// The texts in order, character by character (insertion sort; as a sort of
/// strings gives them).
pub open spec fn spec_sort_texts(s: Seq<Seq<char>>) -> Seq<Seq<char>>
    decreases s.len(),
{
    if s.len() == 0 {
        Seq::empty()
    } else {
        spec_insert_text(spec_sort_texts(s.drop_last()), s.last())
    }
}

/// What the sort gives is in order: no text comes before one ahead of it.
pub proof fn lemma_sorted_texts_in_order(s: Seq<Seq<char>>)
    ensures
        forall|i: int, j: int| 0 <= i < j < spec_sort_texts(s).len()
            ==> !text_lt(#[trigger] spec_sort_texts(s)[j], #[trigger] spec_sort_texts(s)[i]),
        spec_sort_texts(s).len() == s.len(),
    decreases s.len(),
{
    if s.len() > 0 {
        lemma_sorted_texts_in_order(s.drop_last());
        lemma_insert_text_in_order(spec_sort_texts(s.drop_last()), s.last());
    }
}

proof fn lemma_insert_text_in_order(sorted: Seq<Seq<char>>, x: Seq<char>)
    requires
        forall|i: int, j: int| 0 <= i < j < sorted.len() ==> !text_lt(#[trigger] sorted[j], #[trigger] sorted[i]),
    ensures
        forall|i: int, j: int| 0 <= i < j < spec_insert_text(sorted, x).len()
            ==> !text_lt(#[trigger] spec_insert_text(sorted, x)[j], #[trigger] spec_insert_text(sorted, x)[i]),
        spec_insert_text(sorted, x).len() == sorted.len() + 1,
        forall|y: Seq<char>| #[trigger] spec_insert_text(sorted, x).contains(y) ==> y == x || sorted.contains(y),
    decreases sorted.len(),
{
    let r = spec_insert_text(sorted, x);
    if sorted.len() == 0 {
    } else if text_lt(x, sorted[0]) {
        assert forall|i: int, j: int| 0 <= i < j < r.len() implies !text_lt(#[trigger] r[j], #[trigger] r[i]) by {
            if i == 0 {
                assert(r[j] == sorted[j - 1]);
                if text_lt(r[j], x) {
                    if j - 1 > 0 {
                        assert(!text_lt(sorted[j - 1], sorted[0]));
                        lemma_text_lt_transitive(sorted[j - 1], x, sorted[0]);
                    } else {
                        lemma_text_lt_transitive(x, sorted[0], x);
                        lemma_text_lt_irreflexive(x);
                    }
                }
            } else {
                assert(r[i] == sorted[i - 1] && r[j] == sorted[j - 1]);
            }
        }
        assert forall|y: Seq<char>| #[trigger] r.contains(y) implies y == x || sorted.contains(y) by {
            let k = choose|k: int| 0 <= k < r.len() && r[k] == y;
            if k > 0 {
                assert(sorted[k - 1] == y);
            }
        }
    } else {
        let rest = sorted.drop_first();
        lemma_insert_text_in_order(rest, x);
        let tail = spec_insert_text(rest, x);
        assert(r == seq![sorted[0]] + tail);
        assert forall|y: Seq<char>| #[trigger] r.contains(y) implies y == x || sorted.contains(y) by {
            let k = choose|k: int| 0 <= k < r.len() && r[k] == y;
            if k > 0 {
                assert(tail[k - 1] == y);
                assert(tail.contains(y));
                if y != x {
                    assert(rest.contains(y));
                    let m = choose|m: int| 0 <= m < rest.len() && rest[m] == y;
                    assert(sorted[m + 1] == y);
                }
            }
        }
        assert forall|i: int, j: int| 0 <= i < j < r.len() implies !text_lt(#[trigger] r[j], #[trigger] r[i]) by {
            if i == 0 {
                assert(r[j] == tail[j - 1]);
                assert(tail.contains(tail[j - 1]));
                if tail[j - 1] == x {
                } else {
                    let m = choose|m: int| 0 <= m < rest.len() && rest[m] == tail[j - 1];
                    assert(sorted[m + 1] == tail[j - 1]);
                }
            } else {
                assert(r[i] == tail[i - 1] && r[j] == tail[j - 1]);
            }
        }
    }
}

/// Whether the texts are in order: none comes before one ahead of it.
pub open spec fn texts_in_order(s: Seq<Seq<char>>) -> bool {
    forall|i: int, j: int| 0 <= i < j < s.len() ==> !text_lt(#[trigger] s[j], #[trigger] s[i])
}

proof fn lemma_insert_text_at_end(sorted: Seq<Seq<char>>, x: Seq<char>)
    requires
        forall|k: int| 0 <= k < sorted.len() ==> !text_lt(x, #[trigger] sorted[k]),
    ensures
        spec_insert_text(sorted, x) == sorted.push(x),
    decreases sorted.len(),
{
    if sorted.len() > 0 {
        let rest = sorted.drop_first();
        assert forall|k: int| 0 <= k < rest.len() implies !text_lt(x, #[trigger] rest[k]) by {
            assert(rest[k] == sorted[k + 1]);
        }
        lemma_insert_text_at_end(rest, x);
        assert(seq![sorted[0]] + rest.push(x) =~= sorted.push(x));
    } else {
        assert(seq![x] =~= sorted.push(x));
    }
}

/// Sorting texts that are in order leaves them as they are.
pub proof fn lemma_sort_texts_in_order(s: Seq<Seq<char>>)
    requires
        texts_in_order(s),
    ensures
        spec_sort_texts(s) == s,
    decreases s.len(),
{
    if s.len() > 0 {
        let p = s.drop_last();
        assert(texts_in_order(p)) by {
            assert forall|i: int, j: int| 0 <= i < j < p.len() implies !text_lt(#[trigger] p[j], #[trigger] p[i]) by {
                assert(p[i] == s[i] && p[j] == s[j]);
            }
        }
        lemma_sort_texts_in_order(p);
        assert forall|k: int| 0 <= k < p.len() implies !text_lt(s.last(), #[trigger] p[k]) by {
            assert(p[k] == s[k]);
            assert(s.last() == s[s.len() - 1]);
        }
        lemma_insert_text_at_end(p, s.last());
        assert(p.push(s.last()) =~= s);
    }
}

fn insert_text(sorted: &mut Vec<String>, x: String)
    ensures
        string_views(final(sorted)@) == spec_insert_text(string_views(old(sorted)@), x@),
{
    let ghost s0 = string_views(sorted@);
    let xc = str_chars(x.as_str());
    let mut k: usize = 0;
    assert(s0.take(0) + s0.skip(0) =~= s0.skip(0));
    assert(s0.skip(0) =~= s0);
    while k < sorted.len() && !text_lt_exec(&xc, &str_chars(sorted[k].as_str()))
        invariant
            k <= sorted@.len(),
            xc@ == x@,
            s0 == string_views(sorted@),
            spec_insert_text(s0, x@) == s0.take(k as int) + spec_insert_text(s0.skip(k as int), x@),
        decreases sorted@.len() - k,
    {
        assert(s0.skip(k as int)[0] == s0[k as int]);
        assert(s0.skip(k as int).drop_first() =~= s0.skip(k + 1));
        assert(s0.take(k + 1) =~= s0.take(k as int) + seq![s0[k as int]]);
        k = k + 1;
    }
    proof {
        if k < s0.len() {
            assert(s0.skip(k as int)[0] == s0[k as int]);
            assert(spec_insert_text(s0.skip(k as int), x@) == seq![x@] + s0.skip(k as int));
        } else {
            assert(s0.skip(k as int) =~= Seq::<Seq<char>>::empty());
        }
    }
    sorted.insert(k, x);
    assert(string_views(sorted@) =~= spec_insert_text(s0, x@));
}

/// The strings in order, character by character.
pub fn sorted_strings(v: &Vec<String>) -> (r: Vec<String>)
    ensures
        string_views(r@) == spec_sort_texts(string_views(v@)),
{
    let ghost sv = string_views(v@);
    let mut r: Vec<String> = Vec::new();
    let mut i: usize = 0;
    while i < v.len()
        invariant
            i <= v@.len(),
            sv == string_views(v@),
            string_views(r@) == spec_sort_texts(sv.take(i as int)),
        decreases v@.len() - i,
    {
        assert(sv.take(i + 1).drop_last() =~= sv.take(i as int));
        insert_text(&mut r, v[i].clone());
        i = i + 1;
    }
    assert(sv.take(v@.len() as int) =~= sv);
    r
}

/// The positions of `keys`, ordered by their texts; equal texts keep their
/// order (as a stable sort by the texts leaves them).
pub fn stable_text_order(keys: &Vec<String>) -> (r: Vec<usize>)
    ensures
        is_text_arrangement(string_views(keys@), r@),
        in_text_order(string_views(keys@), r@),
{
    let ghost ks = string_views(keys@);
    let mut chars: Vec<Vec<char>> = Vec::new();
    let mut c: usize = 0;
    while c < keys.len()
        invariant
            c <= keys@.len(),
            ks == string_views(keys@),
            chars@.len() == c,
            forall|i: int| 0 <= i < c ==> #[trigger] chars@[i]@ == ks[i],
        decreases keys@.len() - c,
    {
        chars.push(str_chars(keys[c].as_str()));
        c = c + 1;
    }
    let mut sorted: Vec<usize> = Vec::new();
    let mut k: usize = 0;
    while k < keys.len()
        invariant
            k <= keys@.len(),
            ks == string_views(keys@),
            chars@.len() == keys@.len(),
            forall|i: int| 0 <= i < chars@.len() ==> #[trigger] chars@[i]@ == ks[i],
            sorted@.len() == k,
            in_text_order(ks, sorted@),
            forall|i: int| 0 <= i < sorted@.len() ==> sorted@[i] < keys@.len(),
            forall|x: usize| #[trigger] sorted@.contains(x) <==> x < k,
        decreases keys@.len() - k,
    {
        insert_by_text(&chars, &mut sorted, k, Ghost(ks));
        k = k + 1;
    }
    sorted
}

} // verus!
