//! Statistics (v2): the v3 counts in their v2 shape.
use vstd::prelude::*;
use crate::routes::v3::statistics::V3Stats;

verus! {

/// The counts of projects, versions, authors and files (v2), each optional.
pub struct V2Stats {
    pub projects: Option<i64>,
    pub versions: Option<i64>,
    pub authors: Option<i64>,
    pub files: Option<i64>,
}

/// The v3 counts in their v2 shape: every count is there.
pub fn stats_from_v3(stats: V3Stats) -> (r: V2Stats)
    ensures
        r.projects == Some(stats.projects),
        r.versions == Some(stats.versions),
        r.authors == Some(stats.authors),
        r.files == Some(stats.files),
{
    V2Stats {
        projects: Some(stats.projects),
        versions: Some(stats.versions),
        authors: Some(stats.authors),
        files: Some(stats.files),
    }
}

} // verus!
