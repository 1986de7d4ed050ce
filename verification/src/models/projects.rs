//! The kinds that project and version requests name.
use vstd::prelude::*;

verus! {

/// How stable a version is.
#[derive(Debug, Clone, Copy, PartialEq, Eq, Structural)]
pub enum VersionType {
    Release,
    Beta,
    Alpha,
}

/// What an extra file of a version is for.
#[derive(Debug, Clone, Copy, PartialEq, Eq, Structural)]
pub enum FileType {
    RequiredResourcePack,
    OptionalResourcePack,
    Unknown,
}

/// Where a project stands in review and in listings.
#[derive(Debug, Clone, Copy, PartialEq, Eq, Structural)]
pub enum ProjectStatus {
    Approved,
    Archived,
    Rejected,
    Draft,
    Unlisted,
    Processing,
    Withheld,
    Scheduled,
    Private,
    Unknown,
}

/// Whether a project may earn money.
#[derive(Debug, Clone, Copy, PartialEq, Eq, Structural)]
pub enum MonetizationStatus {
    ForceDemonetized,
    Demonetized,
    Monetized,
}

/// A mod loader, by name.
pub struct Loader(pub String);

/// Whether a version is listed.
#[derive(Debug, Clone, Copy, PartialEq, Eq, Structural)]
pub enum VersionStatus {
    Listed,
    Archived,
    Draft,
    Unlisted,
    Scheduled,
    Unknown,
}

/// The name of a version status, as versions store it.
pub open spec fn spec_version_status_str(s: VersionStatus) -> Seq<char> {
    match s {
        VersionStatus::Listed => "listed"@,
        VersionStatus::Archived => "archived"@,
        VersionStatus::Draft => "draft"@,
        VersionStatus::Unlisted => "unlisted"@,
        VersionStatus::Scheduled => "scheduled"@,
        VersionStatus::Unknown => "unknown"@,
    }
}

impl VersionStatus {
    /// Whether a user may ask for this status: a scheduled or unknown one may
    /// not be set by hand.
    pub open spec fn spec_can_be_requested(&self) -> bool {
        match *self {
            VersionStatus::Listed | VersionStatus::Archived | VersionStatus::Draft | VersionStatus::Unlisted => true,
            _ => false,
        }
    }

    /// Whether a user may ask for this status.
    #[verifier::when_used_as_spec(spec_can_be_requested)]
    pub fn can_be_requested(&self) -> (r: bool)
        ensures
            r == self.spec_can_be_requested(),
    {
        match self {
            VersionStatus::Listed | VersionStatus::Archived | VersionStatus::Draft | VersionStatus::Unlisted => true,
            _ => false,
        }
    }

    /// The name of this status, as versions store it.
    pub fn as_str(&self) -> (r: &'static str)
        ensures
            r@ == spec_version_status_str(*self),
    {
        match self {
            VersionStatus::Listed => "listed",
            VersionStatus::Archived => "archived",
            VersionStatus::Draft => "draft",
            VersionStatus::Unlisted => "unlisted",
            VersionStatus::Scheduled => "scheduled",
            VersionStatus::Unknown => "unknown",
        }
    }
}

/// How a version depends on another project or version.
#[derive(Debug, Clone, Copy, PartialEq, Eq, Structural)]
pub enum DependencyType {
    Required,
    Optional,
    Incompatible,
    Embedded,
}

/// A dependency of a version: on a version, a project, or a file by name.
pub struct Dependency {
    pub version_id: Option<crate::models::ids::VersionId>,
    pub project_id: Option<crate::models::ids::ProjectId>,
    pub file_name: Option<String>,
    pub dependency_type: DependencyType,
}

/// A game version, by name.
pub struct GameVersion(pub String);

} // verus!
