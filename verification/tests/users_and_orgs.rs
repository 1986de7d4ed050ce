use labrinth::models::ids::UserId;
use labrinth::models::users::{Badges, Role};
use labrinth::routes::v2::users as v2_users;
use labrinth::routes::v3::organizations::{
    check_name_id_lookup, check_name_lookup, name_changes, check_organization_delete, check_organization_edit, check_project_add, check_project_removal,
    former_owner_demoted, inherited_owner_role, name_as_id, shown_members, shown_members_with, MemberRow, OrganizationEdit,
};
use labrinth::routes::v3::users::{
    can_view_private, edit_user_is_valid, shown_private_fields, shown_listing, check_user_action, check_user_edit, default_removal, is_full_removal, EditUser, RemovalType, UserAction,
};
use labrinth::routes::ApiError;

fn edit() -> EditUser {
    EditUser { username: None, name: None, bio: None, role: None, badges: None, venmo_handle: None }
}

#[test]
fn user_edit_rules() {
    assert!(check_user_edit(UserId(1), Role::Developer, false, UserId(1), &edit(), None).is_ok());
    match check_user_edit(UserId(1), Role::Developer, false, UserId(2), &edit(), None) {
        Err(ApiError::CustomAuthentication(m)) => assert_eq!(m, "You do not have permission to edit this user!"),
        _ => panic!(),
    }
    let mut e = edit();
    e.username = Some("alice".to_string());
    match check_user_edit(UserId(1), Role::Developer, false, UserId(1), &e, Some(UserId(9))) {
        Err(ApiError::InvalidInput(m)) => assert_eq!(m, "Username alice is taken!"),
        _ => panic!(),
    }
    assert!(check_user_edit(UserId(1), Role::Developer, false, UserId(1), &e, Some(UserId(1))).is_ok());
    let mut e = edit();
    e.role = Some(Role::Admin);
    assert!(check_user_edit(UserId(1), Role::Moderator, false, UserId(2), &e, None).is_err());
    assert!(check_user_edit(UserId(1), Role::Admin, false, UserId(2), &e, None).is_ok());
    let mut e = edit();
    e.badges = Some(Badges(1));
    match check_user_edit(UserId(1), Role::Developer, false, UserId(1), &e, None) {
        Err(ApiError::CustomAuthentication(m)) => {
            assert_eq!(m, "You do not have the permissions to edit the badges of this user!")
        }
        _ => panic!(),
    }
    let mut e = edit();
    e.venmo_handle = Some("v".to_string());
    assert!(check_user_edit(UserId(1), Role::Developer, false, UserId(1), &e, None).is_err());
    assert!(check_user_edit(UserId(1), Role::Developer, true, UserId(1), &e, None).is_ok());
}

#[test]
fn user_actions_need_owner_or_role() {
    assert!(check_user_action(UserId(1), Role::Moderator, UserId(2), UserAction::EditIcon).is_ok());
    match check_user_action(UserId(1), Role::Moderator, UserId(2), UserAction::Delete) {
        Err(ApiError::CustomAuthentication(m)) => assert_eq!(m, "You do not have permission to delete this user!"),
        _ => panic!(),
    }
    assert!(check_user_action(UserId(1), Role::Admin, UserId(2), UserAction::SeeNotifications).is_ok());
    assert!(check_user_action(UserId(2), Role::Developer, UserId(2), UserAction::SeeFollows).is_ok());
}

#[test]
fn removal_type_defaults_to_partial() {
    assert_eq!(default_removal(), "partial");
    assert!(is_full_removal(&RemovalType { removal_type: "full".to_string() }));
    assert!(!is_full_removal(&RemovalType { removal_type: default_removal() }));
}

#[test]
fn v2_user_edit_leaves_venmo_alone() {
    let e = v2_users::EditUser { username: Some("a".to_string()), name: None, bio: None, role: None, badges: None }.into_v3();
    assert_eq!(e.username.as_deref(), Some("a"));
    assert!(e.venmo_handle.is_none());
}

#[test]
fn organization_rules() {
    let details = OrganizationEdit { description: Some("d".to_string()), name: None };
    match check_organization_edit(false, true, &details) {
        Err(ApiError::CustomAuthentication(m)) => assert_eq!(m, "You do not have permission to edit this organization!"),
        _ => panic!(),
    }
    assert!(check_organization_edit(true, false, &details).is_err());
    assert!(check_organization_edit(true, false, &OrganizationEdit { description: None, name: None }).is_ok());
    assert_eq!(name_as_id("10"), Some(62));
    assert_eq!(name_as_id("my-org"), None);
    match check_project_add(true, true, Some(true), Some(true)) {
        Err(ApiError::InvalidInput(m)) => assert_eq!(m, "The specified project is already owned by an organization!"),
        _ => panic!(),
    }
    assert!(matches!(check_project_add(false, false, None, Some(true)),
        Err(ApiError::InvalidInput(m)) if m == "You are not a member of this project!"));
    assert!(matches!(check_project_add(false, false, Some(true), None),
        Err(ApiError::InvalidInput(m)) if m == "You are not a member of this organization!"));
    assert!(matches!(check_project_add(false, false, Some(false), Some(true)),
        Err(ApiError::CustomAuthentication(m)) if m == "You need to be an owner of a project to add it to an organization!"));
    assert!(check_project_add(false, true, Some(false), Some(true)).is_ok());
    assert!(matches!(check_project_add(false, false, Some(true), Some(false)),
        Err(ApiError::CustomAuthentication(m)) if m == "You do not have permission to add projects to this organization!"));
    assert!(check_project_add(false, false, Some(true), Some(true)).is_ok());
    assert!(former_owner_demoted(false));
    assert!(!former_owner_demoted(true));
    assert_eq!(inherited_owner_role(), "Inherited Owner");
    assert!(matches!(check_organization_delete(false, None), Err(ApiError::InvalidInput(_))));
    assert!(check_organization_delete(true, None).is_ok());
    assert!(check_project_removal(true, Some(true), true).is_ok());
    assert!(matches!(check_project_removal(true, Some(true), false),
        Err(ApiError::InvalidInput(m)) if m == "The specified user is not a member of this organization!"));
    match check_project_removal(false, Some(true), true) {
        Err(ApiError::InvalidInput(m)) => assert_eq!(m, "The specified project is not owned by this organization!"),
        _ => panic!(),
    }
}

#[test]
fn organization_members_shown() {
    let members = [
        MemberRow { user_id: UserId(1), accepted: true },
        MemberRow { user_id: UserId(2), accepted: false },
        MemberRow { user_id: UserId(3), accepted: false },
    ];
    assert_eq!(shown_members(&members, None), (vec![0], true));
    assert_eq!(shown_members(&members, Some(UserId(2))), (vec![0, 1], true));
    assert_eq!(shown_members(&members, Some(UserId(1))), (vec![0, 1, 2], false));
}

#[test]
fn listed_users_pending_membership_is_shown() {
    let members = vec![
        MemberRow { user_id: UserId(1), accepted: true },
        MemberRow { user_id: UserId(5), accepted: false },
        MemberRow { user_id: UserId(6), accepted: false },
    ];
    assert_eq!(shown_members_with(&members, None, Some(UserId(5))), (vec![0, 1], true));
    assert_eq!(shown_members_with(&members, Some(UserId(6)), Some(UserId(5))), (vec![0, 1], true));
    assert_eq!(shown_members_with(&members, Some(UserId(1)), Some(UserId(5))), (vec![0, 1, 2], false));
}

#[test]
fn private_listings_only_for_moderators_and_owner() {
    assert!(can_view_private(Some((UserId(3), Role::Moderator)), UserId(9)));
    assert!(can_view_private(Some((UserId(9), Role::Developer)), UserId(9)));
    assert!(!can_view_private(Some((UserId(3), Role::Developer)), UserId(9)));
    assert!(!can_view_private(None, UserId(9)));
    assert_eq!(shown_listing(&[true, false, true], false), vec![0, 2]);
    assert_eq!(shown_listing(&[true, false, true], true), vec![0, 1, 2]);
}

#[test]
fn organization_name_collisions() {
    assert!(check_name_id_lookup(Some(false)).is_ok());
    assert!(matches!(check_name_id_lookup(None), Err(ApiError::InvalidInput(m)) if m == "name collides with other organization's id!"));
    assert!(name_changes("new", "old"));
    assert!(!name_changes("same", "same"));
    assert!(matches!(check_name_lookup(Some(true)), Err(ApiError::InvalidInput(m)) if m == "Name collides with other organization's id!"));
    assert!(check_name_lookup(Some(false)).is_ok());
}

fn user_edit(username: Option<&str>, name: Option<Option<&str>>, bio: Option<Option<&str>>, venmo: Option<&str>) -> EditUser {
    EditUser {
        username: username.map(|s| s.to_string()),
        name: name.map(|n| n.map(|s| s.to_string())),
        bio: bio.map(|b| b.map(|s| s.to_string())),
        role: None,
        badges: None,
        venmo_handle: venmo.map(|s| s.to_string()),
    }
}

#[test]
fn user_edit_field_rules() {
    assert!(edit_user_is_valid(&user_edit(None, None, None, None)));
    assert!(edit_user_is_valid(&user_edit(Some("Jean_Luc-42"), Some(Some("Picard")), Some(None), Some("@jl"))));
    assert!(!edit_user_is_valid(&user_edit(Some(""), None, None, None)));
    assert!(!edit_user_is_valid(&user_edit(Some("has space"), None, None, None)));
    assert!(!edit_user_is_valid(&user_edit(Some(&"a".repeat(40)), None, None, None)));
    assert!(edit_user_is_valid(&user_edit(Some(&"a".repeat(39)), None, None, None)));
    assert!(edit_user_is_valid(&user_edit(None, Some(None), None, None)));
    assert!(!edit_user_is_valid(&user_edit(None, Some(Some("é")), None, None)));
    assert!(edit_user_is_valid(&user_edit(None, None, Some(Some(&"é".repeat(160))), None)));
    assert!(!edit_user_is_valid(&user_edit(None, None, Some(Some(&"é".repeat(161))), None)));
    assert!(!edit_user_is_valid(&user_edit(None, None, None, Some(&"x".repeat(161)))));
}

#[test]
fn private_fields_by_token() {
    assert_eq!(shown_private_fields(true, false, Some("a@b.c"), Some(5)), (Some("a@b.c"), None));
    assert_eq!(shown_private_fields(false, true, Some("a@b.c"), Some(5)), (None, Some(5)));
    assert_eq!(shown_private_fields::<&str, i32>(true, true, None, None), (None, None));
}
