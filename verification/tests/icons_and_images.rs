use labrinth::models::ids::UserId;
use labrinth::routes::v2::images::{
    check_image_edit, context_ids, invalid_image_context, image_edit_target, image_upload_limit, not_an_image, unknown_image_context, ImageEdit,
    ImageTarget,
};
use labrinth::routes::{missing_item, missing_project_named, ApiError, MissingItem};
use labrinth::routes::v3::minecraft::profiles::check_profile_icon_edit;
use labrinth::routes::v3::organizations::check_organization_icon_edit;
use labrinth::util::icons::{
    cached_image_path, cdn_address, icon_limit, icon_path, invalid_icon_format, stored_icon_file, stored_icon_path,
    stored_image_path, IconOwner,
};
use labrinth::util::split::split_second;

#[test]
fn icon_limits_by_owner() {
    assert_eq!(icon_limit(IconOwner::User), (2097152, "Icons must be smaller than 2MiB"));
    assert_eq!(icon_limit(IconOwner::Project), (262144, "Icons must be smaller than 256KiB"));
    assert_eq!(icon_limit(IconOwner::Collection).0, 262144);
}

#[test]
fn invalid_icon_messages() {
    match invalid_icon_format(IconOwner::Collection, "exe") {
        ApiError::InvalidInput(m) => assert_eq!(m, "Invalid format for collection icon: exe"),
        other => panic!("unexpected {:?}", other),
    }
    match invalid_icon_format(IconOwner::User, "txt") {
        ApiError::InvalidInput(m) => assert_eq!(m, "Invalid format for user icon: txt"),
        other => panic!("unexpected {:?}", other),
    }
    match invalid_icon_format(IconOwner::Organization, "zip") {
        ApiError::InvalidInput(m) => assert_eq!(m, "Invalid format for project icon: zip"),
        other => panic!("unexpected {:?}", other),
    }
}

#[test]
fn icon_and_image_paths() {
    assert_eq!(icon_path(IconOwner::User, "abc", "ff00", "png"), "user/abc/ff00.png");
    assert_eq!(icon_path(IconOwner::Project, "p1", "aa", "webp"), "data/p1/aa.webp");
    assert_eq!(cached_image_path("beef", "jpg"), "data/cached_images/beef.jpg");
    assert_eq!(cdn_address("https://cdn.example.com", "data/p1/aa.webp"), "https://cdn.example.com/data/p1/aa.webp");
}

#[test]
fn old_icon_file_from_address() {
    assert_eq!(
        stored_icon_file("https://cdn.example.com/data/p1/aa.webp", "https://cdn.example.com"),
        Some("data/p1/aa.webp".to_string())
    );
    assert_eq!(stored_icon_file("https://other.example.com/x.png", "https://cdn.example.com"), None);
}

#[test]
fn split_second_pieces() {
    assert_eq!(split_second("a,b,c", ","), Some("b".to_string()));
    assert_eq!(split_second("a,b", ","), Some("b".to_string()));
    assert_eq!(split_second("a::b::c", "::"), Some("b".to_string()));
    assert_eq!(split_second("abc", ","), None);
    assert_eq!(split_second(",", ","), Some(String::new()));
}

#[test]
fn image_upload_refusals() {
    assert_eq!(image_upload_limit(), (1048576, "Icons must be smaller than 1MiB"));
    match not_an_image() {
        ApiError::InvalidInput(m) => assert_eq!(m, "The specified file is not an image!"),
        other => panic!("unexpected {:?}", other),
    }
    match unknown_image_context() {
        ApiError::InvalidInput(m) => assert_eq!(m, "Context must be one of: project, version, thread_message, report"),
        other => panic!("unexpected {:?}", other),
    }
}

#[test]
fn image_context_fields() {
    let ids = context_ids("version", Some(7));
    assert_eq!(ids.version_id, Some(7));
    assert_eq!(ids.project_id, None);
    assert_eq!(ids.thread_message_id, None);
    assert_eq!(ids.report_id, None);
    let none = context_ids("something", Some(7));
    assert_eq!((none.project_id, none.version_id, none.thread_message_id, none.report_id), (None, None, None, None));
}

#[test]
fn image_edit_targets() {
    let edit = ImageEdit {
        project_id: Some("p".to_string()),
        version_id: Some("v".to_string()),
        thread_message_id: None,
        report_id: None,
    };
    assert_eq!(image_edit_target(&edit), Some((ImageTarget::Version, "v".to_string())));
    let empty = ImageEdit { project_id: None, version_id: None, thread_message_id: None, report_id: None };
    assert_eq!(image_edit_target(&empty), None);
}

#[test]
fn image_edit_checks() {
    assert!(matches!(check_image_edit(UserId(1), UserId(2), Some(5)), Err(ApiError::NotFound)));
    assert!(matches!(check_image_edit(UserId(1), UserId(1), Some(5)), Ok(5)));
    match check_image_edit(UserId(1), UserId(1), None) {
        Err(ApiError::InvalidInput(m)) => {
            assert_eq!(m, "One of 'project_id', 'version_id', 'thread_message_id', or 'report_id' must be specified!")
        }
        other => panic!("unexpected {:?}", other),
    }
}

#[test]
fn stored_files_are_named_by_sha1() {
    assert_eq!(stored_icon_path(IconOwner::User, "u1", b"hello", "png"), "user/u1/aaf4c61ddcc5e8a2dabede0f3b482cd9aea9434d.png");
    assert_eq!(stored_icon_path(IconOwner::Organization, "o1", b"", "webp"), "data/o1/da39a3ee5e6b4b0d3255bfef95601890afd80709.webp");
    assert_eq!(stored_image_path(b"hello", "jpg"), "data/cached_images/aaf4c61ddcc5e8a2dabede0f3b482cd9aea9434d.jpg");
}

#[test]
fn icon_edit_rights_and_missing_items() {
    assert!(check_organization_icon_edit(true, false).is_ok());
    assert!(check_organization_icon_edit(false, true).is_ok());
    assert!(matches!(check_organization_icon_edit(false, false),
        Err(ApiError::CustomAuthentication(m)) if m == "You don't have permission to edit this organization's icon."));
    assert!(check_profile_icon_edit(false, UserId(1), UserId(1)).is_ok());
    assert!(matches!(check_profile_icon_edit(false, UserId(1), UserId(2)),
        Err(ApiError::CustomAuthentication(m)) if m == "You don't have permission to edit this profile's icon."));
    assert!(matches!(missing_item(MissingItem::Client), ApiError::InvalidInput(m) if m == "The specified client does not exist!"));
    assert!(matches!(missing_item(MissingItem::Organization), ApiError::InvalidInput(m) if m == "The specified organization does not exist!"));
    assert!(matches!(missing_project_named("sodium"), ApiError::InvalidInput(m) if m == "The specified project sodium does not exist!"));
}

#[test]
fn unknown_image_contexts() {
    assert!(matches!(invalid_image_context("banner"), ApiError::InvalidInput(m) if m == "Invalid image context: banner"));
}
