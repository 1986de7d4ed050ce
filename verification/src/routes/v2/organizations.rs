//! Organizations (v2): the request bodies.
use vstd::prelude::*;
use crate::models::teams::ProjectPermissions;

verus! {

/// A new organization (v2).
pub struct NewOrganization {
    pub name: String,
    pub description: String,
    pub slug: String,
    /// What members may do in the organization's projects unless told otherwise.
    pub default_project_permissions: ProjectPermissions,
}

/// A list of organization ids, as a JSON array in a string.
pub struct OrganizationIds {
    pub ids: String,
}

} // verus!
