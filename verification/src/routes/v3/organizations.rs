//! Organizations (v3): request bodies and the checks of an edit and of
//! adding a project.
use vstd::prelude::*;
use crate::models::ids::{parse_base62, spec_parse_base62, UserId};
use crate::routes::ApiError;
use crate::util::text::str_eq;

verus! {

/// A new organization: its name (also its slug) and description.
pub struct NewOrganization {
    pub name: String,
    pub description: String,
}

/// A list of organization ids, as a JSON array in a string.
pub struct OrganizationIds {
    pub ids: String,
}

/// An edit of an organization.
pub struct OrganizationEdit {
    pub description: Option<String>,
    pub name: Option<String>,
}

/// Whether an edit of an organization goes through: the user needs some
/// permissions in it, and details (description, name) need the permission to
/// edit details.
pub fn check_organization_edit(has_permissions: bool, may_edit_details: bool, edit: &OrganizationEdit) -> (r: Result<(), ApiError>)
    ensures
        r is Ok <==> (has_permissions && ((edit.description is Some || edit.name is Some) ==> may_edit_details)),
        !has_permissions ==> (r matches Err(ApiError::CustomAuthentication(m))
            && m@ == "You do not have permission to edit this organization!"@),
        has_permissions && edit.description is Some && !may_edit_details ==> (r matches Err(ApiError::CustomAuthentication(m))
            && m@ == "You do not have the permissions to edit the description of this organization!"@),
        has_permissions && edit.description is None && edit.name is Some && !may_edit_details ==>
            (r matches Err(ApiError::CustomAuthentication(m))
            && m@ == "You do not have the permissions to edit the name of this organization!"@),
{
    if !has_permissions {
        return Err(ApiError::CustomAuthentication("You do not have permission to edit this organization!".to_owned()));
    }
    if edit.description.is_some() && !may_edit_details {
        return Err(ApiError::CustomAuthentication(
            "You do not have the permissions to edit the description of this organization!".to_owned(),
        ));
    }
    if edit.name.is_some() && !may_edit_details {
        return Err(ApiError::CustomAuthentication(
            "You do not have the permissions to edit the name of this organization!".to_owned(),
        ));
    }
    Ok(())
}

/// The organization id that a new name would read as, if it is valid base62:
/// such a name may not collide with an existing organization's id.
pub fn name_as_id(name: &str) -> (r: Option<u64>)
    ensures
        match spec_parse_base62(name@) {
            Ok(n) => r == Some(n),
            Err(_) => r is None,
        },
{
    match parse_base62(name) {
        Ok(n) => Some(n),
        Err(_) => None,
    }
}

/// A project to add to an organization, by id or slug.
pub struct OrganizationProjectAdd {
    pub project_id: String,
}

/// Whether a project may be added to an organization: not one already owned
/// by an organization; the user must be a member of the project
/// (`project_membership` is whether the user owns it, when a member) and of
/// the organization (`organization_membership` is the user's permission to
/// add projects, when a member); only an owner of the project (or an admin)
/// may add it, and only with the permission to add projects.
pub fn check_project_add(
    already_in_organization: bool,
    user_is_admin: bool,
    project_membership: Option<bool>,
    organization_membership: Option<bool>,
) -> (r: Result<(), ApiError>)
    ensures
        r is Ok <==> (!already_in_organization && project_membership is Some && organization_membership is Some
            && (user_is_admin || project_membership == Some(true)) && organization_membership == Some(true)),
        already_in_organization ==> (r matches Err(ApiError::InvalidInput(m))
            && m@ == "The specified project is already owned by an organization!"@),
        !already_in_organization && project_membership is None ==> (r matches Err(ApiError::InvalidInput(m))
            && m@ == "You are not a member of this project!"@),
        !already_in_organization && project_membership is Some && organization_membership is None ==>
            (r matches Err(ApiError::InvalidInput(m)) && m@ == "You are not a member of this organization!"@),
        !already_in_organization && project_membership is Some && organization_membership is Some
            && !(user_is_admin || project_membership == Some(true)) ==> (r matches Err(ApiError::CustomAuthentication(m))
            && m@ == "You need to be an owner of a project to add it to an organization!"@),
        !already_in_organization && project_membership is Some && (user_is_admin || project_membership == Some(true))
            && organization_membership == Some(false) ==> (r matches Err(ApiError::CustomAuthentication(m))
            && m@ == "You do not have permission to add projects to this organization!"@),
{
    if already_in_organization {
        return Err(ApiError::InvalidInput("The specified project is already owned by an organization!".to_owned()));
    }
    let owns_project = match project_membership {
        None => return Err(ApiError::InvalidInput("You are not a member of this project!".to_owned())),
        Some(o) => o,
    };
    let may_add_projects = match organization_membership {
        None => return Err(ApiError::InvalidInput("You are not a member of this organization!".to_owned())),
        Some(m) => m,
    };
    if !user_is_admin && !owns_project {
        return Err(ApiError::CustomAuthentication(
            "You need to be an owner of a project to add it to an organization!".to_owned(),
        ));
    }
    if !may_add_projects {
        return Err(ApiError::CustomAuthentication(
            "You do not have permission to add projects to this organization!".to_owned(),
        ));
    }
    Ok(())
}

/// Whether the former owner stops owning a project added to an organization:
/// yes, unless an admin added it.
pub fn former_owner_demoted(user_is_admin: bool) -> (r: bool)
    ensures
        r == !user_is_admin,
{
    !user_is_admin
}

/// Takes a project out of an organization and names its new owner, who must
/// be a member of the organization.
pub struct OrganizationProjectRemoval {
    pub new_owner: UserId,
}

/// The file extension of an uploaded icon.
pub struct Extension {
    pub ext: String,
}

/// A member of an organization's team: who, and whether they accepted.
pub struct MemberRow {
    pub user_id: UserId,
    pub accepted: bool,
}

/// Whether the viewer is an accepted member of the team.
pub open spec fn spec_viewer_is_member(members: Seq<MemberRow>, viewer: Option<UserId>) -> bool {
    viewer matches Some(v) && exists|i: int| 0 <= i < members.len() && (#[trigger] members[i]).user_id == v && members[i].accepted
}

/// Whether a member is shown: to a member of the team, every member; to
/// anyone else, the members who accepted and the pending membership of
/// `own` (the viewer, or the user whose organizations are listed).
pub open spec fn spec_member_shown(m: MemberRow, own: Option<UserId>, viewer_is_member: bool) -> bool {
    viewer_is_member || m.accepted || own == Some(m.user_id)
}

/// The positions, in order, of the members shown.
pub open spec fn spec_shown_members(members: Seq<MemberRow>, own: Option<UserId>, viewer_is_member: bool) -> Seq<usize>
    decreases members.len(),
{
    if members.len() == 0 {
        Seq::empty()
    } else {
        let before = spec_shown_members(members.drop_last(), own, viewer_is_member);
        if spec_member_shown(members.last(), own, viewer_is_member) {
            before.push((members.len() - 1) as usize)
        } else {
            before
        }
    }
}

/// The members of a team shown to a viewer, with the pending membership of
/// `own` shown too, and whether their permissions are hidden (they are, from
/// anyone outside the team).
pub fn shown_members_with(members: &[MemberRow], viewer: Option<UserId>, own: Option<UserId>) -> (r: (Vec<usize>, bool))
    ensures
        r.0@ == spec_shown_members(members@, own, spec_viewer_is_member(members@, viewer)),
        r.1 == !spec_viewer_is_member(members@, viewer),
{
    let mut is_member = false;
    let mut i: usize = 0;
    while i < members.len()
        invariant
            i <= members@.len(),
            is_member == (viewer matches Some(v) && exists|k: int| 0 <= k < i && (#[trigger] members@[k]).user_id == v && members@[k].accepted),
        decreases members@.len() - i,
    {
        if let Some(v) = viewer {
            if members[i].user_id.0 == v.0 && members[i].accepted {
                assert(members@[i as int].user_id == v && members@[i as int].accepted);
                is_member = true;
            }
        }
        i = i + 1;
    }
    let mut shown: Vec<usize> = Vec::new();
    let mut j: usize = 0;
    while j < members.len()
        invariant
            j <= members@.len(),
            is_member == spec_viewer_is_member(members@, viewer),
            shown@ == spec_shown_members(members@.take(j as int), own, is_member),
        decreases members@.len() - j,
    {
        assert(members@.take(j + 1).drop_last() == members@.take(j as int));
        let is_own = match own {
            Some(o) => o.0 == members[j].user_id.0,
            None => false,
        };
        if is_member || members[j].accepted || is_own {
            shown.push(j);
        }
        j = j + 1;
    }
    assert(members@.take(members@.len() as int) == members@);
    (shown, !is_member)
}

/// The members of an organization shown to a viewer (with the viewer's own
/// pending membership), and whether their permissions are hidden.
pub fn shown_members(members: &[MemberRow], viewer: Option<UserId>) -> (r: (Vec<usize>, bool))
    ensures
        r.0@ == spec_shown_members(members@, viewer, spec_viewer_is_member(members@, viewer)),
        r.1 == !spec_viewer_is_member(members@, viewer),
{
    shown_members_with(members, viewer, viewer)
}

/// Whether an organization may be deleted: by an admin, or by a member of it
/// with the permission to delete it. `membership` is the user's permission to
/// delete it when the user is a member.
pub fn check_organization_delete(user_is_admin: bool, membership: Option<bool>) -> (r: Result<(), ApiError>)
    ensures
        r is Ok <==> (user_is_admin || membership == Some(true)),
        !user_is_admin && membership is None ==> (r matches Err(ApiError::InvalidInput(m))
            && m@ == "The specified organization does not exist!"@),
        !user_is_admin && membership == Some(false) ==> (r matches Err(ApiError::CustomAuthentication(m))
            && m@ == "You don't have permission to delete this organization!"@),
{
    if user_is_admin {
        return Ok(());
    }
    match membership {
        None => Err(ApiError::InvalidInput("The specified organization does not exist!".to_owned())),
        Some(false) => Err(ApiError::CustomAuthentication(
            "You don't have permission to delete this organization!".to_owned(),
        )),
        Some(true) => Ok(()),
    }
}

/// The role given to a user who inherits a project from an organization.
pub fn inherited_owner_role() -> (r: String)
    ensures
        r@ == "Inherited Owner"@,
{
    "Inherited Owner".to_owned()
}

/// Whether a project may be taken out of an organization: it must be owned
/// by that organization, the user must be a member of it (`membership` is the
/// user's permission to remove projects when a member), with the permission
/// to remove projects; and the new owner must be a member of the
/// organization.
pub fn check_project_removal(owned_by_organization: bool, membership: Option<bool>, new_owner_in_organization: bool) -> (r: Result<(), ApiError>)
    ensures
        r is Ok <==> (owned_by_organization && membership == Some(true) && new_owner_in_organization),
        !owned_by_organization ==> (r matches Err(ApiError::InvalidInput(m))
            && m@ == "The specified project is not owned by this organization!"@),
        owned_by_organization && membership is None ==> (r matches Err(ApiError::InvalidInput(m))
            && m@ == "You are not a member of this organization!"@),
        owned_by_organization && membership == Some(false) ==> (r matches Err(ApiError::CustomAuthentication(m))
            && m@ == "You do not have permission to add projects to this organization!"@),
        owned_by_organization && membership == Some(true) && !new_owner_in_organization ==> (r matches Err(ApiError::InvalidInput(m))
            && m@ == "The specified user is not a member of this organization!"@),
{
    if !owned_by_organization {
        return Err(ApiError::InvalidInput("The specified project is not owned by this organization!".to_owned()));
    }
    match membership {
        None => Err(ApiError::InvalidInput("You are not a member of this organization!".to_owned())),
        Some(false) => Err(ApiError::CustomAuthentication(
            "You do not have permission to add projects to this organization!".to_owned(),
        )),
        Some(true) => {
            if new_owner_in_organization {
                Ok(())
            } else {
                Err(ApiError::InvalidInput("The specified user is not a member of this organization!".to_owned()))
            }
        },
    }
}


/// Whether a user may change or remove an organization's icon: a moderator,
/// or a member with the permission to edit its details.
pub fn check_organization_icon_edit(user_is_mod: bool, may_edit_details: bool) -> (r: Result<(), ApiError>)
    ensures
        r is Ok <==> (user_is_mod || may_edit_details),
        r is Err ==> (r matches Err(ApiError::CustomAuthentication(m))
            && m@ == "You don't have permission to edit this organization's icon."@),
{
    if user_is_mod || may_edit_details {
        Ok(())
    } else {
        Err(ApiError::CustomAuthentication("You don't have permission to edit this organization's icon.".to_owned()))
    }
}


/// The refusal of a new name that reads as the id of an existing
/// organization (a lookup that gave no answer counts as one found).
pub fn check_name_id_lookup(found: Option<bool>) -> (r: Result<(), ApiError>)
    ensures
        r is Ok <==> found == Some(false),
        r is Err ==> (r matches Err(ApiError::InvalidInput(m)) && m@ == "name collides with other organization's id!"@),
{
    match found {
        Some(false) => Ok(()),
        _ => Err(ApiError::InvalidInput("name collides with other organization's id!".to_owned())),
    }
}

/// Whether a new name is looked up among the other organizations' names:
/// only when it differs from the current one.
pub fn name_changes(name: &str, current: &str) -> (r: bool)
    ensures
        r == (name@ != current@),
{
    !str_eq(name, current)
}

/// The refusal of a new name that another organization has (a lookup that
/// gave no answer counts as one found).
pub fn check_name_lookup(found: Option<bool>) -> (r: Result<(), ApiError>)
    ensures
        r is Ok <==> found == Some(false),
        r is Err ==> (r matches Err(ApiError::InvalidInput(m)) && m@ == "Name collides with other organization's id!"@),
{
    match found {
        Some(false) => Ok(()),
        _ => Err(ApiError::InvalidInput("Name collides with other organization's id!".to_owned())),
    }
}

} // verus!
