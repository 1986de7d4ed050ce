//! What team members may do.
use vstd::prelude::*;

verus! {

/// What a member may do in a project, one bit each: upload a version (bit
/// 0), delete a version (1), edit the details (2), edit the body (3), manage
/// invites (4), remove a member (5), edit a member (6), delete the project
/// (7), view analytics (8), view payouts (9).
#[derive(Debug, Clone, Copy, PartialEq, Eq, Structural)]
pub struct ProjectPermissions(pub u64);

/// The bits of every project permission.
pub const ALL_PROJECT_PERMISSIONS: u64 = 0x3ff;

impl ProjectPermissions {
    /// Every project permission.
    pub fn all() -> (r: ProjectPermissions)
        ensures
            r.0 == ALL_PROJECT_PERMISSIONS,
    {
        ProjectPermissions(ALL_PROJECT_PERMISSIONS)
    }
}

} // verus!
