//! The first-generation version records that the legacy version routes serve.
use vstd::prelude::*;
use crate::models::ids::{UserId, VersionId};

verus! {

/// The id of a mod (what later became a project).
#[derive(Debug, Clone, Copy, PartialEq, Eq, Structural)]
pub struct ModId(pub u64);

/// How stable a version is, and whether it is hidden.
#[derive(Debug, Clone, Copy, PartialEq, Eq, Structural)]
pub enum VersionType {
    Release,
    Beta,
    Alpha,
    ReleaseHidden,
    BetaHidden,
    AlphaHidden,
}

/// A game version a mod version supports, by name.
pub struct GameVersion(pub String);

/// A mod loader a mod version supports, by name.
pub struct ModLoader(pub String);

/// A file of a version: where it is, its name, and its hashes by algorithm.
pub struct VersionFile {
    pub url: String,
    pub filename: String,
    pub hashes: Vec<(String, String)>,
}

/// A version of a mod; `D` is the type of its publication date.
pub struct Version<D> {
    pub id: VersionId,
    pub mod_id: ModId,
    pub author_id: UserId,
    pub name: String,
    pub version_number: String,
    pub changelog_url: Option<String>,
    pub date_published: D,
    pub downloads: u32,
    pub version_type: VersionType,
    pub files: Vec<VersionFile>,
    pub dependencies: Vec<VersionId>,
    pub game_versions: Vec<GameVersion>,
    pub loaders: Vec<ModLoader>,
}

} // verus!
