//! What a report is about.
use vstd::prelude::*;

verus! {

/// The kind of item a report names.
#[derive(Debug, Clone, Copy, PartialEq, Eq, Structural)]
pub enum ItemType {
    Project,
    Version,
    User,
    Unknown,
}

/// The lower-case name of an item kind, as it is written in requests.
pub open spec fn spec_item_type_str(t: ItemType) -> Seq<char> {
    match t {
        ItemType::Project => "project"@,
        ItemType::Version => "version"@,
        ItemType::User => "user"@,
        ItemType::Unknown => "unknown"@,
    }
}

impl ItemType {
    /// The lower-case name of this item kind.
    pub fn as_str(&self) -> (s: &'static str)
        ensures
            s@ == spec_item_type_str(*self),
    {
        match self {
            ItemType::Project => "project",
            ItemType::Version => "version",
            ItemType::User => "user",
            ItemType::Unknown => "unknown",
        }
    }
}

} // verus!
