//! Personal access tokens: reading the token id out of the token text.
use vstd::prelude::*;
use crate::models::ids::{parse_base62_chars, spec_parse_base62, PatToken};
use crate::util::auth::AuthenticationError;
use crate::util::text::str_chars;

verus! {

/// The characters that hold the token id: after a leading `mod_` when the
/// token is longer than that prefix, else all of them.
pub open spec fn pat_id_digits(pat: Seq<char>) -> Seq<char> {
    if pat.len() > 4 && pat.take(4) == seq!['m', 'o', 'd', '_'] {
        pat.skip(4)
    } else {
        pat
    }
}

/// The token id of a personal access token, or why it does not decode.
pub open spec fn spec_extract_pat_id(pat: Seq<char>) -> Result<PatToken, AuthenticationError> {
    match spec_parse_base62(pat_id_digits(pat)) {
        Ok(n) => Ok(PatToken(n as i64)),
        Err(e) => Err(AuthenticationError::Decoding(e)),
    }
}

/// Reads the token id out of a personal access token: the base62 number after
/// a leading `mod_`, or of the whole token.
pub fn extract_pat_id_from_str(pat: &str) -> (r: Result<PatToken, AuthenticationError>)
    ensures
        r == spec_extract_pat_id(pat@),
{
    let chars = str_chars(pat);
    let prefixed = chars.len() > 4 && chars[0] == 'm' && chars[1] == 'o' && chars[2] == 'd' && chars[3] == '_';
    let parsed = if prefixed {
        assert(chars@.take(4) =~= seq!['m', 'o', 'd', '_']);
        let (_, rest) = chars.as_slice().split_at(4);
        assert(rest@ == chars@.skip(4));
        parse_base62_chars(rest)
    } else {
        assert(chars@.len() > 4 ==> chars@.take(4)[0] == chars@[0] && chars@.take(4)[1] == chars@[1]
            && chars@.take(4)[2] == chars@[2] && chars@.take(4)[3] == chars@[3]);
        parse_base62_chars(chars.as_slice())
    };
    match parsed {
        Ok(n) => Ok(PatToken(n as i64)),
        Err(e) => Err(AuthenticationError::Decoding(e)),
    }
}


/// Whether a token has expired, so that it names no user: its expiry lies
/// before now (a token expiring this very moment still holds).
pub fn pat_expired(expires_at: i64, now: i64) -> (r: bool)
    ensures
        r == (expires_at < now),
{
    expires_at < now
}

} // verus!
