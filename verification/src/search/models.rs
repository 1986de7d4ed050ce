//! The shapes of search documents and requests.
use vstd::prelude::*;

verus! {

/// An image attached to a project.
pub struct Attachment {
    pub url: String,
    pub thumbnail_url: String,
    pub is_default: bool,
}

/// A category name.
pub struct Category {
    pub name: String,
}

/// An author with a link.
pub struct Author {
    pub name: String,
    pub url: String,
}

/// A game version that a file supports.
pub struct CurseVersion {
    pub game_version: String,
}

/// A search request.
pub struct SearchRequest {
    pub query: Option<String>,
    pub filters: Option<String>,
    pub version: Option<String>,
    pub offset: Option<String>,
    pub index: Option<String>,
}

/// A project as the search index holds it.
pub struct SearchMod {
    pub mod_id: i32,
    pub author: String,
    pub title: String,
    pub description: String,
    pub keywords: Vec<String>,
    pub versions: Vec<String>,
    pub downloads: i32,
    pub page_url: String,
    pub icon_url: String,
    pub author_url: String,
    pub date_created: String,
    pub created: i64,
    pub date_modified: String,
    pub updated: i64,
    pub latest_version: String,
    pub empty: String,
}

impl SearchMod {
    /// The document id in the search index: the project id.
    pub fn get_uid(&self) -> (r: &i32)
        ensures
            *r == self.mod_id,
    {
        &self.mod_id
    }
}

} // verus!
