//! The SHA-1 digest that names stored files.
use vstd::prelude::*;

verus! {

/// The SHA-1 digest of the bytes, in lower-case hex.
pub uninterp spec fn sha1_hex(data: Seq<u8>) -> Seq<char>;

/// Whether a character is a lower-case hex digit.
pub open spec fn is_lower_hex_digit(c: char) -> bool {
    ('0' <= c && c <= '9') || ('a' <= c && c <= 'f')
}

/// The SHA-1 digest of the bytes, in lower-case hex.
/// Trusted: calls `sha1::Sha1::from(data).hexdigest()`. The digest is a
/// function of the bytes alone, so it is named; the crate's source writes
/// the digest's five 32-bit words as eight lower-case hex digits each, which
/// makes 40 of them.
#[verifier::external_body]
pub(crate) fn sha1_hexdigest(data: &[u8]) -> (r: String)
    ensures
        r@ == sha1_hex(data@),
        r@.len() == 40,
        forall|i: int| 0 <= i < r@.len() ==> is_lower_hex_digit(#[trigger] r@[i]),
{
    sha1::Sha1::from(data).hexdigest()
}

} // verus!
