//! Personal access tokens (v2): the request bodies and how a token given as
//! text is read.
use vstd::prelude::*;
use crate::models::ids::{lemma_base62_roundtrip, parse_base62, spec_parse_base62, spec_to_base62, to_base62, DecodingError, PatToken};
use crate::routes::ApiError;

verus! {

/// A new token: its scopes and how many days it lasts.
pub struct CreatePersonalAccessToken {
    pub scope: String,
    pub expire_in_days: i64,
}

/// A change of a token: new scopes, or a new expiry so many days from now.
pub struct ModifyPersonalAccessToken {
    pub access_token: String,
    pub scope: Option<String>,
    pub expire_in_days: Option<i64>,
}

/// The stored token that a base62 access token names: its 64 bits read as a
/// signed number.
pub fn parse_access_token(access_token: &str) -> (r: Result<PatToken, ApiError>)
    ensures
        match spec_parse_base62(access_token@) {
            Ok(n) => r == Ok::<PatToken, ApiError>(PatToken(n as i64)),
            Err(e) => r == Err::<PatToken, ApiError>(ApiError::Decoding(e)),
        },
{
    match parse_base62(access_token) {
        Ok(n) => Ok(PatToken(n as i64)),
        Err(e) => Err(ApiError::Decoding(e)),
    }
}

/// The text of a stored token, as a new token is handed out: its 64 bits
/// in base62.
pub fn access_token_text(token: PatToken) -> (r: String)
    ensures
        r@ == spec_to_base62((token.0 as u64) as nat),
{
    to_base62(token.0 as u64)
}

/// A token handed out as text is read back as the same stored token, for
/// every stored token.
pub proof fn lemma_access_token_roundtrip(token: PatToken)
    ensures
        spec_parse_base62(spec_to_base62((token.0 as u64) as nat)) == Ok::<u64, DecodingError>(token.0 as u64),
        PatToken(((token.0 as u64) as i64)) == token,
{
    lemma_base62_roundtrip(token.0 as u64);
    let x = token.0;
    assert(((x as u64) as i64) == x) by (bit_vector);
}

/// The scopes of an edited token: the new ones when given, else the stored ones.
pub fn edited_scope(edit: &ModifyPersonalAccessToken, stored: String) -> (r: String)
    ensures
        r@ == match edit.scope {
            Some(s) => s@,
            None => stored@,
        },
{
    match &edit.scope {
        Some(s) => s.clone(),
        None => stored,
    }
}

} // verus!
