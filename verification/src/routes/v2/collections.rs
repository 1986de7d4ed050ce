//! Collections (v2): request bodies and what an edit of a collection may
//! change.
use vstd::prelude::*;
use crate::models::ids::{parse_base62, spec_parse_base62};
use crate::routes::ApiError;

verus! {

/// A list of collection ids, as a JSON array in a string.
pub struct CollectionIds {
    pub ids: String,
}

/// An edit of a collection (v2).
pub struct EditCollection {
    pub title: Option<String>,
    pub description: Option<String>,
    pub body: Option<String>,
    pub slug: Option<String>,
    pub add_projects: Option<Vec<String>>,
    pub remove_projects: Option<Vec<String>>,
}

/// The two permissions an edit of a collection looks at.
#[derive(Debug, Clone, Copy, PartialEq, Eq, Structural)]
pub struct EditRights {
    /// May change the title, description and slug.
    pub details: bool,
    /// May change the body.
    pub body: bool,
}

/// What a user may change of a collection: everything for an admin; what
/// the team grants a member; details and body for a moderator; else nothing.
pub fn collection_edit_rights(user_is_admin: bool, member: Option<EditRights>, user_is_mod: bool) -> (r: Option<EditRights>)
    ensures
        r == if user_is_admin {
            Some(EditRights { details: true, body: true })
        } else if member is Some {
            member
        } else if user_is_mod {
            Some(EditRights { details: true, body: true })
        } else {
            None::<EditRights>
        },
{
    if user_is_admin {
        Some(EditRights { details: true, body: true })
    } else if member.is_some() {
        member
    } else if user_is_mod {
        Some(EditRights { details: true, body: true })
    } else {
        None
    }
}

/// The refusal of an edit of a collection, by the first field it may not
/// change (title, description, slug, body in turn).
pub fn check_collection_edit(rights: Option<EditRights>, edit: &EditCollection) -> (r: Result<(), ApiError>)
    ensures
        rights is None ==> (r matches Err(ApiError::CustomAuthentication(m))
            && m@ == "You do not have permission to edit this project!"@),
        r is Ok <==> (rights matches Some(p) && ((edit.title is Some || edit.description is Some || edit.slug is Some) ==> p.details)
            && (edit.body is Some ==> p.body)),
        rights matches Some(p) && !p.details && edit.title is Some ==> (r matches Err(ApiError::CustomAuthentication(m))
            && m@ == "You do not have the permissions to edit the title of this collection!"@),
        rights matches Some(p) && !p.details && edit.title is None && edit.description is Some ==>
            (r matches Err(ApiError::CustomAuthentication(m))
            && m@ == "You do not have the permissions to edit the description of this collection!"@),
        rights matches Some(p) && !p.details && edit.title is None && edit.description is None && edit.slug is Some ==>
            (r matches Err(ApiError::CustomAuthentication(m))
            && m@ == "You do not have the permissions to edit the slug of this collection!"@),
        rights matches Some(p) && (p.details || (edit.title is None && edit.description is None && edit.slug is None))
            && !p.body && edit.body is Some ==> (r matches Err(ApiError::CustomAuthentication(m))
            && m@ == "You do not have the permissions to edit the body of this collection!"@),
{
    let p = match rights {
        None => {
            return Err(ApiError::CustomAuthentication("You do not have permission to edit this project!".to_owned()));
        },
        Some(p) => p,
    };
    if edit.title.is_some() && !p.details {
        return Err(ApiError::CustomAuthentication(
            "You do not have the permissions to edit the title of this collection!".to_owned(),
        ));
    }
    if edit.description.is_some() && !p.details {
        return Err(ApiError::CustomAuthentication(
            "You do not have the permissions to edit the description of this collection!".to_owned(),
        ));
    }
    if edit.slug.is_some() && !p.details {
        return Err(ApiError::CustomAuthentication(
            "You do not have the permissions to edit the slug of this collection!".to_owned(),
        ));
    }
    if edit.body.is_some() && !p.body {
        return Err(ApiError::CustomAuthentication(
            "You do not have the permissions to edit the body of this collection!".to_owned(),
        ));
    }
    Ok(())
}

/// The file extension of an uploaded icon.
pub struct Extension {
    pub ext: String,
}


/// The collection id a new slug reads as in base62, if it does: an existing
/// collection with that id collides with the slug.
pub fn slug_as_collection_id(slug: &str) -> (r: Option<u64>)
    ensures
        r == match spec_parse_base62(slug@) { Ok(n) => Some(n), Err(_) => None::<u64> },
{
    match parse_base62(slug) {
        Ok(n) => Some(n),
        Err(_) => None,
    }
}

/// The refusal of a new slug that reads as the id of an existing collection
/// (a lookup that gave no answer counts as one found).
pub fn check_collection_slug_lookup(found: Option<bool>) -> (r: Result<(), ApiError>)
    ensures
        r is Ok <==> found == Some(false),
        r is Err ==> (r matches Err(ApiError::InvalidInput(m)) && m@ == "Slug collides with other collections's id!"@),
{
    match found {
        Some(false) => Ok(()),
        _ => Err(ApiError::InvalidInput("Slug collides with other collections's id!".to_owned())),
    }
}

/// Whether a user may change or remove a collection's icon: a moderator, or
/// a member of its team (`membership` is the member's permission to edit
/// details) with that permission; to anyone else outside the team the
/// collection does not exist.
pub fn check_collection_icon_edit(user_is_mod: bool, membership: Option<bool>) -> (r: Result<(), ApiError>)
    ensures
        r is Ok <==> (user_is_mod || membership == Some(true)),
        !user_is_mod && membership is None ==> (r matches Err(ApiError::InvalidInput(m))
            && m@ == "The specified collection does not exist!"@),
        !user_is_mod && membership == Some(false) ==> (r matches Err(ApiError::CustomAuthentication(m))
            && m@ == "You don't have permission to edit this collection's icon."@),
{
    if user_is_mod {
        return Ok(());
    }
    match membership {
        None => Err(ApiError::InvalidInput("The specified collection does not exist!".to_owned())),
        Some(false) => Err(ApiError::CustomAuthentication("You don't have permission to edit this collection's icon.".to_owned())),
        Some(true) => Ok(()),
    }
}

} // verus!
