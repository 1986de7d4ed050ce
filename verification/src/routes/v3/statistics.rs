//! Statistics (v3): how much the site holds, counted and kept in a cache.
use vstd::prelude::*;
use crate::models::projects::ProjectStatus;
use crate::routes::v3::projects::spec_status_facts;

verus! {

broadcast use vstd::string::group_string_axioms;

/// The counts of projects, versions, authors and files.
pub struct V3Stats {
    pub projects: i64,
    pub versions: i64,
    pub authors: i64,
    pub files: i64,
}

/// How long a count stays in the cache, in seconds (30 minutes).
pub const STATISTICS_EXPIRY: i64 = 1800;

/// One of the counts.
#[derive(Debug, Clone, Copy, PartialEq, Eq, Structural)]
pub enum StatKind {
    Projects,
    Versions,
    Authors,
    Files,
}

/// The cache key of a count, in the `statistics` namespace.
pub open spec fn spec_stat_key(kind: StatKind) -> Seq<char> {
    match kind {
        StatKind::Projects => "projects"@,
        StatKind::Versions => "versions"@,
        StatKind::Authors => "authors"@,
        StatKind::Files => "files"@,
    }
}

/// The cache namespace of the counts.
pub fn statistics_namespace() -> (r: &'static str)
    ensures
        r@ == "statistics"@,
{
    "statistics"
}

/// The cache key of a count.
pub fn stat_key(kind: StatKind) -> (r: &'static str)
    ensures
        r@ == spec_stat_key(kind),
{
    match kind {
        StatKind::Projects => "projects",
        StatKind::Versions => "versions",
        StatKind::Authors => "authors",
        StatKind::Files => "files",
    }
}

/// Whether a count only takes listed versions: those of versions and of
/// files do; every count takes only searchable projects.
pub open spec fn counts_listed_versions_only(kind: StatKind) -> bool {
    kind is Versions || kind is Files
}

/// Whether a count only takes listed versions.
pub fn listed_versions_only(kind: StatKind) -> (r: bool)
    ensures
        r == counts_listed_versions_only(kind),
{
    match kind {
        StatKind::Versions | StatKind::Files => true,
        _ => false,
    }
}

/// What getting one count does, given what the cache holds for it.
pub enum CountStep {
    /// The cached count is the answer.
    UseCached(i64),
    /// The count is made, then stored under the key for the given seconds.
    CountAndStore { key: &'static str, expiry: i64 },
}

/// Getting one count: a cached count is used as it is; without one, the
/// count is made and stored under its key for `STATISTICS_EXPIRY` seconds.
pub fn count_step(kind: StatKind, cached: Option<i64>) -> (r: CountStep)
    ensures
        cached matches Some(c) ==> (r matches CountStep::UseCached(x) && x == c),
        cached is None ==> (r matches CountStep::CountAndStore { key, expiry }
            && key@ == spec_stat_key(kind) && expiry == STATISTICS_EXPIRY),
{
    match cached {
        Some(c) => CountStep::UseCached(c),
        None => CountStep::CountAndStore { key: stat_key(kind), expiry: STATISTICS_EXPIRY },
    }
}

/// The statuses of projects, in the order they are listed.
pub open spec fn spec_project_statuses() -> Seq<ProjectStatus> {
    seq![
        ProjectStatus::Approved,
        ProjectStatus::Archived,
        ProjectStatus::Rejected,
        ProjectStatus::Draft,
        ProjectStatus::Unlisted,
        ProjectStatus::Processing,
        ProjectStatus::Withheld,
        ProjectStatus::Scheduled,
        ProjectStatus::Private,
        ProjectStatus::Unknown,
    ]
}

/// The name of a project status, as projects store it.
pub open spec fn spec_project_status_name(s: ProjectStatus) -> Seq<char> {
    match s {
        ProjectStatus::Approved => "approved"@,
        ProjectStatus::Archived => "archived"@,
        ProjectStatus::Rejected => "rejected"@,
        ProjectStatus::Draft => "draft"@,
        ProjectStatus::Unlisted => "unlisted"@,
        ProjectStatus::Processing => "processing"@,
        ProjectStatus::Withheld => "withheld"@,
        ProjectStatus::Scheduled => "scheduled"@,
        ProjectStatus::Private => "private"@,
        ProjectStatus::Unknown => "unknown"@,
    }
}

/// The names of the searchable project statuses, in the order the statuses
/// are listed: what every count filters projects by.
pub open spec fn spec_searchable_status_names() -> Seq<Seq<char>> {
    spec_project_statuses().filter(|s: ProjectStatus| spec_status_facts(s).is_searchable)
        .map_values(|s: ProjectStatus| spec_project_status_name(s))
}

/// The names of the searchable project statuses, in order.
pub fn searchable_status_names() -> (r: Vec<String>)
    ensures
        r.deep_view() == spec_searchable_status_names(),
{
    let mut r: Vec<String> = Vec::new();
    r.push("approved".to_owned());
    r.push("archived".to_owned());
    proof {
        let only = seq![ProjectStatus::Approved, ProjectStatus::Archived];
        reveal_with_fuel(Seq::<ProjectStatus>::filter, 11);
        assert(spec_project_statuses().filter(|s: ProjectStatus| spec_status_facts(s).is_searchable) =~= only);
        assert(r.deep_view() =~= only.map_values(|s: ProjectStatus| spec_project_status_name(s)));
    }
    r
}

} // verus!
