//! Character-level helpers shared by the parsers and formatters of this crate.
use vstd::prelude::*;
use vstd::std_specs::iter::IteratorSpec;

verus! {

broadcast use vstd::string::group_string_axioms;

/// Appends one character to a string.
/// Trusted: calls `String::push`, which appends the character at the end.
#[verifier::external_body]
pub(crate) fn push_char(s: &mut String, c: char)
    ensures
        final(s)@ == old(s)@.push(c),
{
    s.push(c);
}

/// The characters of a string slice, in order.
pub fn str_chars(s: &str) -> (v: Vec<char>)
    ensures
        v@ == s@,
{
    let mut it = s.chars();
    let mut v: Vec<char> = Vec::new();
    let ghost full = s@;
    loop
        invariant
            it.obeys_prophetic_iter_laws(),
            full == v@ + it.remaining(),
            full == s@,
        ensures
            v@ == s@,
        decreases full.len() - v@.len(),
    {
        let ghost before = it.remaining();
        match it.next() {
            Some(c) => {
                assert(before.len() > 0);
                assert(full == v@.push(c) + it.remaining()) by {
                    assert(before == seq![c] + before.drop_first());
                }
                v.push(c);
            },
            None => {
                assert(before.len() == 0);
                assert(full == v@);
                break;
            },
        }
    }
    v
}

/// A string holding exactly the given characters.
pub fn string_from_chars(chars: &[char]) -> (s: String)
    ensures
        s@ == chars@,
{
    let mut s = String::new();
    let mut i: usize = 0;
    while i < chars.len()
        invariant
            i <= chars@.len(),
            s@ == chars@.subrange(0, i as int),
        decreases chars@.len() - i,
    {
        push_char(&mut s, chars[i]);
        assert(chars@.subrange(0, i + 1) == chars@.subrange(0, i as int).push(chars@[i as int]));
        i = i + 1;
    }
    assert(chars@.subrange(0, chars@.len() as int) == chars@);
    s
}

/// Whether two string slices hold the same characters.
pub fn str_eq(a: &str, b: &str) -> (r: bool)
    ensures
        r == (a@ == b@),
{
    let x = str_chars(a);
    let y = str_chars(b);
    if x.len() != y.len() {
        return false;
    }
    let mut i: usize = 0;
    while i < x.len()
        invariant
            x@ == a@,
            y@ == b@,
            x@.len() == y@.len(),
            i <= x@.len(),
            forall|j: int| 0 <= j < i ==> x@[j] == y@[j],
        decreases x@.len() - i,
    {
        if x[i] != y[i] {
            return false;
        }
        i = i + 1;
    }
    assert(x@ =~= y@);
    true
}

/// A copy of a list of strings.
pub fn clone_strings(v: &Vec<String>) -> (r: Vec<String>)
    ensures
        r.deep_view() == v.deep_view(),
        r@ == v@,
{
    let mut r: Vec<String> = Vec::new();
    let mut i: usize = 0;
    while i < v.len()
        invariant
            i <= v@.len(),
            r@ == v@.take(i as int),
        decreases v@.len() - i,
    {
        r.push(v[i].clone());
        assert(v@.take(i + 1) == v@.take(i as int).push(v@[i as int]));
        i = i + 1;
    }
    assert(v@.take(v@.len() as int) == v@);
    assert(r.deep_view() =~= v.deep_view());
    r
}

/// The decimal digits of `n`, most significant first (`0` for zero).
pub open spec fn spec_decimal(n: nat) -> Seq<char>
    decreases n,
{
    if n < 10 {
        seq![(48 + n) as char]
    } else {
        spec_decimal(n / 10).push((48 + n % 10) as char)
    }
}

/// Writes `n` in decimal.
pub fn decimal_string(n: u64) -> (s: String)
    ensures
        s@ == spec_decimal(n as nat),
{
    let mut rest = n;
    let mut digits: Vec<char> = Vec::new();
    while rest >= 10
        invariant
            spec_decimal(n as nat) == spec_decimal(rest as nat) + digits@,
        decreases rest,
    {
        let c = ((rest % 10) as u8 + 48) as char;
        proof {
            assert(spec_decimal(rest as nat) == spec_decimal((rest / 10) as nat).push(c));
            assert(spec_decimal((rest / 10) as nat).push(c) + digits@
                == spec_decimal((rest / 10) as nat) + (seq![c] + digits@));
        }
        let ghost before = digits@;
        digits.insert(0, c);
        assert(digits@ == seq![c] + before);
        rest = rest / 10;
    }
    let c = (rest as u8 + 48) as char;
    let ghost before = digits@;
    digits.insert(0, c);
    assert(digits@ == seq![c] + before);
    assert(spec_decimal(rest as nat) == seq![c]);
    string_from_chars(digits.as_slice())
}

/// Appends the UTF-8 bytes of a string slice.
pub fn push_str_bytes(out: &mut Vec<u8>, s: &str)
    ensures
        final(out)@ == old(out)@ + vstd::utf8::encode_utf8(s@),
{
    let b = s.as_bytes();
    push_bytes(out, b);
}

/// Appends bytes.
pub fn push_bytes(out: &mut Vec<u8>, b: &[u8])
    ensures
        final(out)@ == old(out)@ + b@,
{
    let ghost start = out@;
    let mut i: usize = 0;
    while i < b.len()
        invariant
            i <= b@.len(),
            out@ == start + b@.take(i as int),
        decreases b@.len() - i,
    {
        out.push(b[i]);
        assert(b@.take(i + 1) == b@.take(i as int).push(b@[i as int]));
        i = i + 1;
    }
    assert(b@.take(b@.len() as int) == b@);
}

/// The text that bytes encode, when they are valid UTF-8.
/// Trusted: calls `String::from_utf8`, which std documents to fail exactly
/// when the bytes are not UTF-8, and otherwise to hold those bytes.
#[verifier::external_body]
pub(crate) fn string_from_utf8(bytes: Vec<u8>) -> (r: Option<String>)
    ensures
        r is Some <==> vstd::utf8::valid_utf8(bytes@),
        r matches Some(s) ==> s@ == vstd::utf8::decode_utf8(bytes@),
{
    String::from_utf8(bytes).ok()
}

/// The strings written one after another with `sep` between each two.
pub open spec fn spec_join(items: Seq<Seq<char>>, sep: Seq<char>) -> Seq<char>
    decreases items.len(),
{
    if items.len() == 0 {
        Seq::empty()
    } else if items.len() == 1 {
        items[0]
    } else {
        spec_join(items.drop_last(), sep) + sep + items.last()
    }
}

/// The text of a list of strings.
pub open spec fn string_views(items: Seq<String>) -> Seq<Seq<char>> {
    items.map_values(|s: String| s@)
}

/// The strings written one after another with `sep` between each two.
pub fn join_strings(items: &Vec<String>, sep: &str) -> (r: String)
    ensures
        r@ == spec_join(string_views(items@), sep@),
{
    let mut r = String::new();
    let mut i: usize = 0;
    while i < items.len()
        invariant
            i <= items@.len(),
            r@ == spec_join(string_views(items@.take(i as int)), sep@),
        decreases items@.len() - i,
    {
        let ghost prev = string_views(items@.take(i as int));
        assert(string_views(items@.take(i + 1)).drop_last() == prev);
        assert(string_views(items@.take(i + 1)).last() == items@[i as int]@);
        if i > 0 {
            r.append(sep);
        }
        r.append(items[i].as_str());
        i = i + 1;
    }
    assert(items@.take(items@.len() as int) == items@);
    r
}

/// Whether a character has the Unicode `White_Space` property.
pub open spec fn is_white_space(c: char) -> bool {
    let n = c as u32;
    (0x09 <= n <= 0x0d) || n == 0x20 || n == 0x85 || n == 0xa0 || n == 0x1680
        || (0x2000 <= n <= 0x200a) || n == 0x2028 || n == 0x2029 || n == 0x202f
        || n == 0x205f || n == 0x3000
}

fn white_space(c: char) -> (r: bool)
    ensures
        r == is_white_space(c),
{
    let n = c as u32;
    (0x09 <= n && n <= 0x0d) || n == 0x20 || n == 0x85 || n == 0xa0 || n == 0x1680
        || (0x2000 <= n && n <= 0x200a) || n == 0x2028 || n == 0x2029 || n == 0x202f
        || n == 0x205f || n == 0x3000
}

/// Whether `i` is where the text starts once leading white space is left off.
pub open spec fn is_trim_start(s: Seq<char>, i: int) -> bool {
    &&& 0 <= i <= s.len()
    &&& forall|k: int| 0 <= k < i ==> is_white_space(#[trigger] s[k])
    &&& i < s.len() ==> !is_white_space(s[i])
}

/// Whether `j` is where the text ends once trailing white space is left off,
/// for text that starts at `from`.
pub open spec fn is_trim_end(s: Seq<char>, from: int, j: int) -> bool {
    &&& from <= j <= s.len()
    &&& forall|k: int| j <= k < s.len() ==> is_white_space(#[trigger] s[k])
    &&& j > from ==> !is_white_space(s[j - 1])
}

/// The characters with the white space at both ends left off.
pub open spec fn spec_trim(s: Seq<char>) -> Seq<char> {
    let from = choose|i: int| #[trigger] is_trim_start(s, i);
    let to = choose|j: int| #[trigger] is_trim_end(s, from, j);
    s.subrange(from, to)
}

/// A string with the white space at both ends left off, as `str::trim` does.
pub fn trim(s: &str) -> (r: String)
    ensures
        r@ == spec_trim(s@),
{
    let chars = str_chars(s);
    let n = chars.len();
    let mut from: usize = 0;
    while from < n && white_space(chars[from])
        invariant
            from <= n,
            n == chars@.len(),
            forall|k: int| 0 <= k < from ==> is_white_space(#[trigger] chars@[k]),
        decreases n - from,
    {
        from = from + 1;
    }
    let mut to: usize = n;
    while to > from && white_space(chars[to - 1])
        invariant
            from <= to <= n,
            n == chars@.len(),
            forall|k: int| to <= k < n ==> is_white_space(#[trigger] chars@[k]),
        decreases to,
    {
        to = to - 1;
    }
    proof {
        let sv = s@;
        assert(chars@ == sv);
        assert(is_trim_start(sv, from as int));
        let f = choose|i: int| #[trigger] is_trim_start(sv, i);
        if f < from {
            assert(is_white_space(sv[f]));
        } else if f > from {
            assert(is_white_space(sv[from as int]));
        }
        assert(is_trim_end(sv, from as int, to as int));
        let t = choose|j: int| #[trigger] is_trim_end(sv, from as int, j);
        if t < to {
            assert(is_white_space(sv[to - 1]));
        } else if t > to {
            assert(is_white_space(sv[t - 1]));
        }
    }
    let piece = vstd::slice::slice_subrange(chars.as_slice(), from, to);
    string_from_chars(piece)
}

/// A signed number in decimal, with a minus sign when negative.
pub open spec fn spec_signed_decimal(n: int) -> Seq<char> {
    if n < 0 {
        seq!['-'] + spec_decimal((-n) as nat)
    } else {
        spec_decimal(n as nat)
    }
}

/// Writes a signed number in decimal.
pub fn signed_decimal_string(n: i64) -> (s: String)
    ensures
        s@ == spec_signed_decimal(n as int),
{
    if n < 0 {
        let magnitude: u64 = (0i128 - n as i128) as u64;
        let mut s = "-".to_owned();
        s.append(decimal_string(magnitude).as_str());
        proof {
            reveal_strlit("-");
        }
        s
    } else {
        decimal_string(n as u64)
    }
}

/// The text in lower case, as `str::to_lowercase` writes it.
pub uninterp spec fn lowercase(s: Seq<char>) -> Seq<char>;

/// Lower-cases a string slice.
/// Trusted: calls `str::to_lowercase`; the contract names its result as a
/// function of the text.
#[verifier::external_body]
pub(crate) fn to_lowercase(s: &str) -> (r: String)
    ensures
        r@ == lowercase(s@),
{
    s.to_lowercase()
}

} // verus!
