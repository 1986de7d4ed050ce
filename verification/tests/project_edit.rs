use labrinth::routes::v3::projects::{
    check_field_permission, check_moderation_message, check_monetization_status, check_project_license,
    check_requested_status, check_slug_lookup, plan_status_change, slug_lookups, unknown_category, unknown_donation_platform,
    ProjectEditField, StatusChangePlan, StatusFacts, check_project_edit, plan_project_status_change, status_facts,
};
use labrinth::models::projects::ProjectStatus;
use labrinth::routes::{ApiError, EditStart};

fn facts(is_approved: bool, is_searchable: bool, can_be_requested: bool, is_processing: bool) -> StatusFacts {
    StatusFacts { is_approved, is_searchable, can_be_requested, is_processing }
}

#[test]
fn field_permissions() {
    assert!(check_field_permission(true, false, ProjectEditField::Title).is_ok());
    assert!(matches!(check_field_permission(false, true, ProjectEditField::IssuesUrl),
        Err(ApiError::CustomAuthentication(m)) if m == "You do not have the permissions to edit the issues URL of this project!"));
    assert!(matches!(check_field_permission(true, false, ProjectEditField::Body),
        Err(ApiError::CustomAuthentication(m)) if m == "You do not have the permissions to edit the body of this project!"));
}

#[test]
fn status_changes() {
    let draft = facts(false, false, true, false);
    let processing = facts(false, false, false, true);
    let approved = facts(true, true, true, false);
    let unlisted = facts(true, false, true, false);
    // Submitting a draft for review needs versions.
    assert!(matches!(plan_status_change(true, false, draft, processing, false, false, Some(true)),
        Err(ApiError::InvalidInput(m)) if m == "Project submitted for review with no initial versions"));
    let plan = plan_status_change(true, false, draft, processing, true, false, Some(true)).unwrap();
    assert!(plan.queue_for_review && !plan.set_approved && !plan.announce_to_moderators && !plan.notify_members);
    // A non-moderator cannot approve a draft.
    assert!(matches!(plan_status_change(true, false, draft, approved, true, false, None),
        Err(ApiError::CustomAuthentication(m)) if m == "You don't have permission to set this status!"));
    // A moderator approves: first approval, public announcement, members told.
    assert_eq!(
        plan_status_change(true, true, processing, approved, true, false, None).unwrap(),
        StatusChangePlan {
            queue_for_review: false,
            set_approved: true,
            announce_publicly: true,
            announce_to_moderators: true,
            notify_members: true,
            remove_from_index: false,
        }
    );
    // The owner unlists an approved project: it leaves the index.
    let plan = plan_status_change(true, false, approved, unlisted, true, true, Some(true)).unwrap();
    assert!(plan.remove_from_index && !plan.announce_publicly);
    assert!(matches!(plan_status_change(false, true, approved, unlisted, true, true, None),
        Err(ApiError::CustomAuthentication(m)) if m == "You do not have the permissions to edit the status of this project!"));
}

#[test]
fn requested_status_and_moderation() {
    assert!(check_requested_status(true, None).is_ok());
    assert!(matches!(check_requested_status(true, Some(false)),
        Err(ApiError::InvalidInput(m)) if m == "Specified status cannot be requested!"));
    assert!(check_moderation_message(false, true, false, false).is_ok());
    assert!(matches!(check_moderation_message(false, true, true, true),
        Err(ApiError::CustomAuthentication(m)) if m == "You do not have the permissions to edit the moderation message body of this project!"));
    assert!(check_moderation_message(true, false, true, false).is_ok());
    assert!(check_monetization_status(true, false, false, false).is_ok());
    assert!(matches!(check_monetization_status(true, false, true, false),
        Err(ApiError::CustomAuthentication(m)) if m == "You do not have the permissions to edit the monetization status of this project!"));
    assert!(check_monetization_status(true, true, false, true).is_ok());
}

#[test]
fn licenses_are_checked() {
    assert!(matches!(check_project_license(true, "MIT"), Ok(l) if l == "MIT"));
    assert!(matches!(check_project_license(true, "ARR"), Ok(l) if l == "LicenseRef-All-Rights-Reserved"));
    assert!(matches!(check_project_license(true, "MIT OR Apache-2.0"), Ok(l) if l == "MIT OR Apache-2.0"));
    assert!(matches!(check_project_license(true, "not a license ((("), Err(ApiError::InvalidInput(m)) if m.starts_with("Invalid SPDX license identifier: ")));
    assert!(matches!(check_project_license(false, "MIT"), Err(ApiError::CustomAuthentication(_))));
}

#[test]
fn slug_edits() {
    let l = slug_lookups("AABBCC", Some("AABBCC"));
    assert!(l.id_to_check.is_some());
    assert!(!l.check_slug_taken);
    let l = slug_lookups("my-mod", Some("old"));
    assert_eq!(l.id_to_check, None);
    assert!(l.check_slug_taken);
    assert!(slug_lookups("x", None).check_slug_taken);
    assert!(check_slug_lookup(Some(false)).is_ok());
    assert!(matches!(check_slug_lookup(Some(true)), Err(ApiError::InvalidInput(m)) if m == "Slug collides with other project's id!"));
    assert!(check_slug_lookup(None).is_err());
    assert!(matches!(unknown_donation_platform("ko-fi"), ApiError::InvalidInput(m) if m == "Platform ko-fi does not exist."));
}

#[test]
fn unknown_categories() {
    assert!(matches!(unknown_category("magik"), ApiError::InvalidInput(m) if m == "Category magik does not exist."));
    assert!(matches!(check_field_permission(false, true, ProjectEditField::AdditionalCategories),
        Err(ApiError::CustomAuthentication(m)) if m == "You do not have the permissions to edit the additional categories of this project!"));
}

#[test]
fn project_edit_gate() {
    assert!(matches!(check_project_edit(false, false), Ok(EditStart::NotFound)));
    assert!(matches!(check_project_edit(true, true), Ok(EditStart::Edit)));
    assert!(matches!(check_project_edit(true, false),
        Err(ApiError::CustomAuthentication(m)) if m == "You do not have permission to edit this project!"));
}

#[test]
fn status_facts_of_statuses() {
    assert_eq!(status_facts(ProjectStatus::Approved), facts(true, true, true, false));
    assert_eq!(status_facts(ProjectStatus::Archived), facts(true, true, true, false));
    assert_eq!(status_facts(ProjectStatus::Unlisted), facts(true, false, true, false));
    assert_eq!(status_facts(ProjectStatus::Private), facts(true, false, true, false));
    assert_eq!(status_facts(ProjectStatus::Draft), facts(false, false, true, false));
    assert_eq!(status_facts(ProjectStatus::Processing), facts(false, false, false, true));
    assert_eq!(status_facts(ProjectStatus::Rejected), facts(false, false, false, false));
    assert_eq!(status_facts(ProjectStatus::Withheld), facts(false, false, false, false));
    // A draft submitted for review by its owner is queued.
    let plan = plan_project_status_change(true, false, ProjectStatus::Draft, ProjectStatus::Processing, true, false, Some(true));
    assert!(matches!(plan, Ok(p) if p.queue_for_review && !p.set_approved && !p.notify_members));
    // An owner cannot approve their own project.
    assert!(matches!(plan_project_status_change(true, false, ProjectStatus::Draft, ProjectStatus::Approved, true, false, None),
        Err(ApiError::CustomAuthentication(m)) if m == "You don't have permission to set this status!"));
    // Archiving an approved project takes it out of search.
    let plan = plan_project_status_change(true, false, ProjectStatus::Approved, ProjectStatus::Unlisted, true, true, Some(true));
    assert!(matches!(plan, Ok(p) if p.remove_from_index && !p.announce_publicly));
}
