//! Teams (v2): request bodies and the defaults of a new team member.
use vstd::prelude::*;
use crate::models::ids::UserId;

verus! {

/// A list of team ids, as a JSON array in a string.
pub struct TeamIds {
    pub ids: String,
}

/// The role of a new team member when the request names none.
pub fn default_role() -> (r: String)
    ensures
        r@ == "Member"@,
{
    "Member".to_owned()
}

/// The place of a new team member in the listing when the request names none.
pub fn default_ordering() -> (r: i64)
    ensures
        r == 0,
{
    0
}

/// Hands a team over to another member.
pub struct TransferOwnership {
    pub user_id: UserId,
}

} // verus!
