//! The second piece of a text split at a separator.
use vstd::prelude::*;
use crate::util::text::{str_chars, string_from_chars};

verus! {

broadcast use vstd::string::group_string_axioms;

/// Whether `sep` occurs in `s` from position `i` on.
pub open spec fn occurs_at(s: Seq<char>, sep: Seq<char>, i: int) -> bool {
    0 <= i && i + sep.len() <= s.len() && s.subrange(i, i + sep.len()) == sep
}

/// The first position where `sep` occurs in `s`, if it does.
#[verifier::opaque]
pub open spec fn first_occurrence(s: Seq<char>, sep: Seq<char>) -> Option<int> {
    if exists|i: int| #[trigger] occurs_at(s, sep, i) {
        Some(choose|i: int| #[trigger] occurs_at(s, sep, i) && forall|j: int| 0 <= j < i ==> !occurs_at(s, sep, j))
    } else {
        None
    }
}

/// The second piece when `s` is split at each (non-empty) `sep`: what lies
/// between the first and the second occurrence, or after the first when it
/// is the only one; none when `sep` does not occur.
pub open spec fn second_piece(s: Seq<char>, sep: Seq<char>) -> Option<Seq<char>> {
    match first_occurrence(s, sep) {
        None => None,
        Some(i) => {
            let rest = s.subrange(i + sep.len(), s.len() as int);
            match first_occurrence(rest, sep) {
                None => Some(rest),
                Some(j) => Some(rest.subrange(0, j)),
            }
        },
    }
}

fn occurs_at_exec(s: &[char], sep: &[char], i: usize) -> (r: bool)
    requires
        i + sep@.len() <= s@.len(),
    ensures
        r == occurs_at(s@, sep@, i as int),
{
    let total: usize = s.len();
    let mut t: usize = 0;
    while t < sep.len()
        invariant
            t <= sep@.len(),
            i + sep@.len() <= s@.len(),
            s@.len() == total,
            forall|k: int| 0 <= k < t ==> s@[i + k] == sep@[k],
        decreases sep@.len() - t,
    {
        if s[i + t] != sep[t] {
            assert(s@.subrange(i as int, i + sep@.len())[t as int] != sep@[t as int]);
            return false;
        }
        t = t + 1;
    }
    assert(s@.subrange(i as int, i + sep@.len()) =~= sep@);
    true
}

proof fn lemma_first_occurrence_at(s: Seq<char>, sep: Seq<char>, i: int)
    requires
        occurs_at(s, sep, i),
        forall|j: int| 0 <= j < i ==> !occurs_at(s, sep, j),
    ensures
        first_occurrence(s, sep) == Some(i),
{
    reveal(first_occurrence);
    let c = choose|k: int| #[trigger] occurs_at(s, sep, k) && forall|j: int| 0 <= j < k ==> !occurs_at(s, sep, j);
    assert(occurs_at(s, sep, c));
    if c < i {
        assert(!occurs_at(s, sep, c));
    } else if c > i {
        assert(!occurs_at(s, sep, i));
    }
}

proof fn lemma_no_occurrence(s: Seq<char>, sep: Seq<char>)
    requires
        forall|j: int| !#[trigger] occurs_at(s, sep, j),
    ensures
        first_occurrence(s, sep) is None,
{
    reveal(first_occurrence);
}

/// A text that starts with the separator, followed by a piece in which the
/// separator does not occur, splits into that piece second.
pub proof fn lemma_second_piece_after_prefix(sep: Seq<char>, piece: Seq<char>)
    requires
        sep.len() > 0,
        forall|j: int| !#[trigger] occurs_at(piece, sep, j),
    ensures
        second_piece(sep + piece, sep) == Some(piece),
{
    let s = sep + piece;
    assert(s.subrange(0, sep.len() as int) =~= sep);
    assert(occurs_at(s, sep, 0));
    lemma_first_occurrence_at(s, sep, 0);
    assert(s.subrange(sep.len() as int, s.len() as int) =~= piece);
    lemma_no_occurrence(piece, sep);
}

fn suffix_chars(s: &[char], from: usize) -> (r: Vec<char>)
    requires
        from <= s@.len(),
    ensures
        r@ == s@.subrange(from as int, s@.len() as int),
{
    let mut r: Vec<char> = Vec::new();
    let mut k: usize = from;
    while k < s.len()
        invariant
            from <= k <= s@.len(),
            r@ == s@.subrange(from as int, k as int),
        decreases s@.len() - k,
    {
        r.push(s[k]);
        assert(s@.subrange(from as int, k + 1) == s@.subrange(from as int, k as int).push(s@[k as int]));
        k = k + 1;
    }
    r
}

fn find_first(s: &[char], sep: &[char]) -> (r: Option<usize>)
    ensures
        match first_occurrence(s@, sep@) {
            None => r is None,
            Some(i) => r matches Some(k) && k as int == i,
        },
        r matches Some(i) ==> i + sep@.len() <= s@.len(),
{
    if sep.len() > s.len() {
        assert(forall|i: int| !#[trigger] occurs_at(s@, sep@, i));
        proof { lemma_no_occurrence(s@, sep@); }
        return None;
    }
    let last = s.len() - sep.len();
    let mut i: usize = 0;
    while i <= last
        invariant
            last + sep@.len() == s@.len(),
            forall|j: int| 0 <= j < i ==> !occurs_at(s@, sep@, j),
        decreases last + 1 - i,
    {
        if occurs_at_exec(s, sep, i) {
            proof {
                lemma_first_occurrence_at(s@, sep@, i as int);
            }
            return Some(i);
        }
        if i == last {
            assert forall|j: int| !#[trigger] occurs_at(s@, sep@, j) by {
                if occurs_at(s@, sep@, j) {
                    assert(j <= last);
                }
            }
            proof { lemma_no_occurrence(s@, sep@); }
            return None;
        }
        i = i + 1;
    }
    assert forall|j: int| !#[trigger] occurs_at(s@, sep@, j) by {
        if occurs_at(s@, sep@, j) {
            assert(j <= last);
        }
    }
    proof { lemma_no_occurrence(s@, sep@); }
    None
}

/// The second piece when `s` is split at each `sep` (as `str::split` and
/// `nth(1)` give it, for a separator that is not empty).
pub fn split_second(s: &str, sep: &str) -> (r: Option<String>)
    requires
        sep@.len() > 0,
    ensures
        match second_piece(s@, sep@) {
            None => r is None,
            Some(p) => r is Some && r->0@ == p,
        },
{
    let sepc = str_chars(sep);
    let chars = str_chars(s);
    let slen: usize = chars.len();
    let i = match find_first(chars.as_slice(), sepc.as_slice()) {
        None => return None,
        Some(i) => i,
    };
    let rest = suffix_chars(chars.as_slice(), i + sepc.len());
    assert(rest@ == chars@.subrange(i + sepc@.len(), chars@.len() as int));
    match find_first(rest.as_slice(), sepc.as_slice()) {
        None => Some(string_from_chars(rest.as_slice())),
        Some(j) => {
            let piece = vstd::slice::slice_subrange(rest.as_slice(), 0, j);
            Some(string_from_chars(piece))
        },
    }
}

} // verus!
