//! Version creation (v2): the description that comes with a new version's
//! files, and its defaults.
use vstd::prelude::*;
use crate::models::ids::{ImageId, ProjectId};
use crate::models::projects::{Dependency, FileType, GameVersion, Loader, VersionStatus, VersionType};

verus! {

/// The status a new version asks for when the request names none.
pub fn default_requested_status() -> (r: VersionStatus)
    ensures
        r == VersionStatus::Listed,
{
    VersionStatus::Listed
}

/// The description of a new version, sent before its files.
pub struct InitialVersionData {
    pub project_id: Option<ProjectId>,
    pub file_parts: Vec<String>,
    pub version_number: String,
    pub version_title: String,
    pub version_body: Option<String>,
    pub dependencies: Vec<Dependency>,
    pub game_versions: Vec<GameVersion>,
    pub release_channel: VersionType,
    pub loaders: Vec<Loader>,
    pub featured: bool,
    pub primary_file: Option<String>,
    pub status: VersionStatus,
    /// The kind of each extra file, by file name.
    pub file_types: Vec<(String, Option<FileType>)>,
    /// Images uploaded for the changelog, to be attached to the version.
    pub uploaded_images: Vec<ImageId>,
}

} // verus!
