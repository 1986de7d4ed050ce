pub mod v2;
pub mod v2_reroute;
pub mod v3;
pub mod version_creation;
pub mod versions;
pub mod webhooks;

use vstd::prelude::*;
use crate::models::ids::DecodingError;

verus! {

broadcast use vstd::string::group_string_axioms;

/// The errors that the route logic of this crate answers with.
#[derive(Debug)]
pub enum ApiError {
    /// The user is not signed in, or may not do this.
    Authentication,
    /// The user may not do what was asked.
    CustomAuthentication(String),
    /// The request is malformed or names what does not exist.
    InvalidInput(String),
    /// The request failed validation.
    Validation(String),
    /// An id in the request is no valid base62.
    Decoding(DecodingError),
    /// What was asked for does not exist, or is not shown to this user.
    NotFound,
}


/// What an edit does once the item it names is looked up.
#[derive(Debug, Clone, Copy, PartialEq, Eq, Structural)]
pub enum EditStart {
    /// The item does not exist: the answer is "not found", with no body.
    NotFound,
    /// The edit goes ahead.
    Edit,
}

/// A kind of item a request names, which may not exist.
#[derive(Debug, Clone, Copy, PartialEq, Eq, Structural)]
pub enum MissingItem {
    Client,
    Collection,
    Organization,
    Profile,
    Project,
}

/// The word that names a kind of item in a refusal.
pub open spec fn spec_missing_word(item: MissingItem) -> Seq<char> {
    match item {
        MissingItem::Client => "client"@,
        MissingItem::Collection => "collection"@,
        MissingItem::Organization => "organization"@,
        MissingItem::Profile => "profile"@,
        MissingItem::Project => "project"@,
    }
}

/// The refusal of a request about an item that does not exist.
pub fn missing_item(item: MissingItem) -> (r: ApiError)
    ensures
        r matches ApiError::InvalidInput(m) && m@ == "The specified "@ + spec_missing_word(item) + " does not exist!"@,
{
    let word = match item {
        MissingItem::Client => "client",
        MissingItem::Collection => "collection",
        MissingItem::Organization => "organization",
        MissingItem::Profile => "profile",
        MissingItem::Project => "project",
    };
    let mut m = "The specified ".to_owned();
    m.append(word);
    m.append(" does not exist!");
    ApiError::InvalidInput(m)
}

/// The refusal of a project, named as the request names it, that does not
/// exist.
pub fn missing_project_named(project: &str) -> (r: ApiError)
    ensures
        r matches ApiError::InvalidInput(m) && m@ == "The specified project "@ + project@ + " does not exist!"@,
{
    let mut m = "The specified project ".to_owned();
    m.append(project);
    m.append(" does not exist!");
    ApiError::InvalidInput(m)
}

} // verus!
