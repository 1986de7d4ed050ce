//! Identifiers and their base62 text form.
use vstd::prelude::*;
use crate::util::text::{str_chars, string_from_chars};

verus! {

/// The id of a user.
#[derive(Debug, Clone, Copy, PartialEq, Eq, Structural)]
pub struct UserId(pub u64);

/// The id of a project.
#[derive(Debug, Clone, Copy, PartialEq, Eq, Structural)]
pub struct ProjectId(pub u64);

/// The id of a version.
#[derive(Debug, Clone, Copy, PartialEq, Eq, Structural)]
pub struct VersionId(pub u64);

/// The id of an uploaded image.
#[derive(Debug, Clone, Copy, PartialEq, Eq, Structural)]
pub struct ImageId(pub u64);

/// The id of a team.
#[derive(Debug, Clone, Copy, PartialEq, Eq, Structural)]
pub struct TeamId(pub u64);

/// The id of an organization.
#[derive(Debug, Clone, Copy, PartialEq, Eq, Structural)]
pub struct OrganizationId(pub u64);

/// The stored id of a personal access token.
#[derive(Debug, Clone, Copy, PartialEq, Eq, Structural)]
pub struct PatToken(pub i64);

/// Why a base62 string could not be decoded.
#[derive(Debug, Clone, PartialEq, Eq)]
pub enum DecodingError {
    /// A character outside `0-9`, `A-Z` and `a-z`.
    InvalidBase62(char),
    /// The number does not fit in 64 bits.
    Overflow,
}

/// The value of a base62 digit: `0-9` are 0 to 9, `A-Z` are 10 to 35, `a-z` are 36 to 61.
pub open spec fn base62_digit(c: char) -> Option<nat> {
    let n = c as int;
    if 48 <= n <= 57 {
        Some((n - 48) as nat)
    } else if 65 <= n <= 90 {
        Some((n - 65 + 10) as nat)
    } else if 97 <= n <= 122 {
        Some((n - 97 + 36) as nat)
    } else {
        None
    }
}

/// The character that writes the base62 digit `d` (for `d < 62`).
pub open spec fn base62_char(d: nat) -> char {
    if d < 10 {
        (48 + d) as char
    } else if d < 36 {
        (65 + d - 10) as char
    } else {
        (97 + d - 36) as char
    }
}

/// What decoding the characters `s` gives, read most significant digit first:
/// the first character that is no digit is reported, and a value that passes
/// `u64::MAX` at some digit is an overflow.
pub open spec fn spec_parse_base62(s: Seq<char>) -> Result<u64, DecodingError>
    decreases s.len(),
{
    if s.len() == 0 {
        Ok(0u64)
    } else {
        match spec_parse_base62(s.drop_last()) {
            Err(e) => Err(e),
            Ok(n) => match base62_digit(s.last()) {
                None => Err(DecodingError::InvalidBase62(s.last())),
                Some(d) => if n * 62 + d > u64::MAX {
                    Err(DecodingError::Overflow)
                } else {
                    Ok((n * 62 + d) as u64)
                },
            },
        }
    }
}

/// The base62 digits of `n`, most significant first; zero has no digits.
pub open spec fn spec_to_base62(n: nat) -> Seq<char>
    decreases n,
{
    if n == 0 {
        Seq::empty()
    } else {
        spec_to_base62(n / 62).push(base62_char(n % 62))
    }
}

proof fn lemma_parse_error_persists(s: Seq<char>, k: int, j: int)
    requires
        0 <= k <= j <= s.len(),
        spec_parse_base62(s.take(k)) is Err,
    ensures
        spec_parse_base62(s.take(j)) == spec_parse_base62(s.take(k)),
    decreases j - k,
{
    if j > k {
        lemma_parse_error_persists(s, k, j - 1);
        assert(s.take(j).drop_last() == s.take(j - 1));
    }
}

fn digit_value(c: char) -> (r: Option<u64>)
    ensures
        match base62_digit(c) {
            Some(d) => r == Some(d as u64),
            None => r is None,
        },
{
    if '0' <= c && c <= '9' {
        Some((c as u32 - 48) as u64)
    } else if 'A' <= c && c <= 'Z' {
        Some((c as u32 - 65 + 10) as u64)
    } else if 'a' <= c && c <= 'z' {
        Some((c as u32 - 97 + 36) as u64)
    } else {
        None
    }
}

/// Decodes a base62 number; see [`spec_parse_base62`] for which error comes when.
pub fn parse_base62(string: &str) -> (r: Result<u64, DecodingError>)
    ensures
        r == spec_parse_base62(string@),
{
    let chars = str_chars(string);
    parse_base62_chars(chars.as_slice())
}

/// Decodes base62 digits given as characters.
pub fn parse_base62_chars(chars: &[char]) -> (r: Result<u64, DecodingError>)
    ensures
        r == spec_parse_base62(chars@),
{
    let mut num: u64 = 0;
    let mut i: usize = 0;
    while i < chars.len()
        invariant
            i <= chars@.len(),
            spec_parse_base62(chars@.take(i as int)) == Ok::<u64, DecodingError>(num),
        decreases chars@.len() - i,
    {
        let c = chars[i];
        assert(chars@.take(i + 1).drop_last() == chars@.take(i as int));
        assert(chars@.take(i + 1).last() == c);
        let step = match digit_value(c) {
            None => Err(DecodingError::InvalidBase62(c)),
            Some(d) => match num.checked_mul(62) {
                None => Err(DecodingError::Overflow),
                Some(m) => match m.checked_add(d) {
                    None => Err(DecodingError::Overflow),
                    Some(n) => Ok(n),
                },
            },
        };
        match step {
            Err(e) => {
                proof {
                    lemma_parse_error_persists(chars@, i + 1, chars@.len() as int);
                    assert(chars@.take(chars@.len() as int) == chars@);
                }
                return Err(e);
            },
            Ok(n) => {
                num = n;
            },
        }
        i = i + 1;
    }
    assert(chars@.take(chars@.len() as int) == chars@);
    Ok(num)
}

fn digit_char(d: u64) -> (c: char)
    requires
        d < 62,
    ensures
        c == base62_char(d as nat),
{
    if d < 10 {
        ((d + 48) as u8) as char
    } else if d < 36 {
        ((d - 10 + 65) as u8) as char
    } else {
        ((d - 36 + 97) as u8) as char
    }
}

/// Encodes a number in base62, most significant digit first (zero gives the empty string).
pub fn to_base62(num: u64) -> (s: String)
    ensures
        s@ == spec_to_base62(num as nat),
{
    let mut rest = num;
    let mut digits: Vec<char> = Vec::new();
    while rest > 0
        invariant
            spec_to_base62(num as nat) == spec_to_base62(rest as nat) + digits@,
        decreases rest,
    {
        let c = digit_char(rest % 62);
        proof {
            assert(spec_to_base62(rest as nat) == spec_to_base62((rest / 62) as nat).push(c));
            assert(spec_to_base62((rest / 62) as nat).push(c) + digits@
                == spec_to_base62((rest / 62) as nat) + (seq![c] + digits@));
        }
        let ghost before = digits@;
        digits.insert(0, c);
        assert(digits@ == seq![c] + before);
        rest = rest / 62;
    }
    assert(spec_to_base62(0) + digits@ == digits@);
    string_from_chars(digits.as_slice())
}

proof fn lemma_digit_char_inverse(d: nat)
    requires
        d < 62,
    ensures
        base62_digit(base62_char(d)) == Some(d),
{
}

/// Decoding what encoding gives returns the number: `parse_base62(to_base62(n)) == Ok(n)`
/// for every 64-bit `n`.
pub proof fn lemma_base62_roundtrip(n: u64)
    ensures
        spec_parse_base62(spec_to_base62(n as nat)) == Ok::<u64, DecodingError>(n),
    decreases n,
{
    if n > 0 {
        let q = (n / 62) as u64;
        lemma_base62_roundtrip(q);
        lemma_digit_char_inverse((n % 62) as nat);
        let s = spec_to_base62(n as nat);
        assert(s.drop_last() == spec_to_base62(q as nat));
        assert(s.last() == base62_char((n % 62) as nat));
        assert(q * 62 + n % 62 == n);
    }
}

} // verus!
