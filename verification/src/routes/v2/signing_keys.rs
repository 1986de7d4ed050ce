//! Signing keys (v2): who may delete a key.
use vstd::prelude::*;
use crate::models::ids::UserId;
use crate::routes::ApiError;
use crate::util::access::{accessible_positions, may_access, spec_accessible_positions};

verus! {

/// A list of signing key ids, as a JSON array in a string.
pub struct SigningKeyIds {
    pub ids: String,
}

/// A key may be deleted by its owner or by an admin.
pub fn check_key_delete(owner: UserId, user: UserId, user_is_admin: bool) -> (r: Result<(), ApiError>)
    ensures
        r is Ok <==> (owner == user || user_is_admin),
        r is Err ==> (r matches Err(ApiError::CustomAuthentication(m)) && m@ == "You are not authorized to delete this key!"@),
{
    if may_access(owner, user, user_is_admin) {
        Ok(())
    } else {
        Err(ApiError::CustomAuthentication("You are not authorized to delete this key!".to_owned()))
    }
}

/// The keys, among those asked for (given by their owners), that a bulk
/// delete removes: the user's own, or all of them for an admin; others are
/// passed over without an error.
pub fn keys_to_delete(owners: &[UserId], user: UserId, user_is_admin: bool) -> (r: Vec<usize>)
    ensures
        r@ == spec_accessible_positions(owners@, user, user_is_admin),
{
    accessible_positions(owners, user, user_is_admin)
}

} // verus!
