//! Collections (v3): request bodies and who may change a collection.
use vstd::prelude::*;
use crate::models::ids::UserId;
use crate::routes::{missing_project_named, ApiError};

verus! {

/// The body that creates a collection.
pub struct CollectionCreateData {
    /// The title or name of the collection.
    pub name: String,
    /// A short description of the collection.
    pub description: Option<String>,
    /// The projects the collection starts with.
    pub projects: Vec<String>,
}

/// A list of collection ids, as a JSON array in a string.
pub struct CollectionIds {
    pub ids: String,
}

/// An edit of a collection (status given by whether it is approved and
/// whether the new one can be requested, see [`check_collection_status`]).
pub struct EditCollection {
    pub name: Option<String>,
    pub description: Option<Option<String>>,
    pub new_projects: Option<Vec<String>>,
}

/// The file extension of an uploaded icon.
pub struct FileExt {
    pub ext: String,
}

/// Whether the user may change the collection: its owner, or a moderator.
pub fn can_modify_collection(collection_owner: UserId, user_id: UserId, user_is_mod: bool) -> (r: bool)
    ensures
        r == (collection_owner == user_id || user_is_mod),
{
    collection_owner.0 == user_id.0 || user_is_mod
}

/// The refusal of an edit by someone who may not change the collection.
pub fn check_collection_modify(collection_owner: UserId, user_id: UserId, user_is_mod: bool) -> (r: Result<(), ApiError>)
    ensures
        r is Ok <==> (collection_owner == user_id || user_is_mod),
        r matches Err(ApiError::CustomAuthentication(m)) ==> m@ == "You do not have permissions to modify this collection!"@,
        r is Err ==> r matches Err(ApiError::CustomAuthentication(_)),
{
    if !can_modify_collection(collection_owner, user_id, user_is_mod) {
        return Err(ApiError::CustomAuthentication("You do not have permissions to modify this collection!".to_owned()));
    }
    Ok(())
}

/// A status change of a collection: moderators always; others only from an
/// approved collection to a status that can be requested.
pub fn check_collection_status(user_is_mod: bool, current_approved: bool, new_can_be_requested: bool) -> (r: Result<(), ApiError>)
    ensures
        r is Ok <==> (user_is_mod || (current_approved && new_can_be_requested)),
        r matches Err(ApiError::CustomAuthentication(m)) ==> m@ == "You don't have permission to set this status!"@,
        r is Err ==> r matches Err(ApiError::CustomAuthentication(_)),
{
    if !(user_is_mod || current_approved && new_can_be_requested) {
        return Err(ApiError::CustomAuthentication("You don't have permission to set this status!".to_owned()));
    }
    Ok(())
}

/// Whether every project a collection edit names was found.
pub open spec fn all_found(found: Seq<Option<i64>>) -> bool {
    forall|i: int| 0 <= i < found.len() ==> #[trigger] found[i] is Some
}

/// The rows that replace a collection's projects: the collection id and the
/// id found for each named project, in the order named. `found` holds what
/// the lookup of each name gave; the first name that was not found is
/// refused, and then no row is written.
pub fn collection_project_rows(collection_id: i64, names: &Vec<String>, found: &Vec<Option<i64>>) -> (r: Result<(Vec<i64>, Vec<i64>), ApiError>)
    requires
        names@.len() == found@.len(),
    ensures
        r is Ok <==> all_found(found@),
        r matches Ok((c, p)) ==> c@.len() == names@.len() && p@.len() == names@.len()
            && (forall|i: int| 0 <= i < c@.len() ==> #[trigger] c@[i] == collection_id)
            && (forall|i: int| 0 <= i < p@.len() ==> found@[i] == Some(#[trigger] p@[i])),
        r is Err ==> exists|i: int| 0 <= i < found@.len() && #[trigger] found@[i] is None
            && (forall|j: int| 0 <= j < i ==> found@[j] is Some)
            && (r matches Err(ApiError::InvalidInput(m)) && m@ == "The specified project "@ + names@[i]@ + " does not exist!"@),
{
    let mut c: Vec<i64> = Vec::new();
    let mut p: Vec<i64> = Vec::new();
    let mut i: usize = 0;
    while i < found.len()
        invariant
            names@.len() == found@.len(),
            i <= found@.len(),
            c@.len() == i && p@.len() == i,
            forall|k: int| 0 <= k < i ==> #[trigger] c@[k] == collection_id,
            forall|k: int| 0 <= k < i ==> found@[k] == Some(#[trigger] p@[k]),
        decreases found@.len() - i,
    {
        match found[i] {
            Some(id) => {
                c.push(collection_id);
                p.push(id);
            },
            None => {
                assert forall|j: int| 0 <= j < i implies found@[j] is Some by {
                    assert(found@[j] == Some(p@[j]));
                }
                assert(!all_found(found@));
                return Err(missing_project_named(names[i].as_str()));
            },
        }
        i = i + 1;
    }
    assert forall|k: int| 0 <= k < found@.len() implies #[trigger] found@[k] is Some by {
        assert(found@[k] == Some(p@[k]));
    }
    Ok((c, p))
}

} // verus!
