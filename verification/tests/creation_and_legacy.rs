use labrinth::models::ids::{ImageId, OrganizationId, ProjectId, TeamId, UserId, VersionId};
use labrinth::models::teams::ProjectPermissions;
use labrinth::models::mods::{ModId, VersionType as ModVersionType};
use labrinth::models::projects::{MonetizationStatus, ProjectStatus};
use labrinth::routes::v3::project_creation::{
    check_category, check_creation_slug, project_image_missing, slug_as_project_id, check_data_part, check_project_image, default_project_type, default_requested_status, icon_done, initial_member, new_project_record, NewProject, initial_owner, InitialMember,
    initial_status, next_part, project_license, unknown_link_platform, CreateError, PartAction, ProjectCreateData,
    UploadState,
};
use labrinth::routes::version_creation::{
    check_mod_exists, changelog_place, channel_id, check_data_given, file_extension, jar_path, legacy_part, InitialVersionData,
    LegacyPartAction,
};
use labrinth::routes::versions::{
    check_legacy_version_edit, convert_version, file_hashes, legacy_changelog_path, legacy_edit_channel, legacy_edit_loader,
    version_type_of_channel, QueryFile, QueryVersion,
};
use labrinth::routes::{ApiError, EditStart};
use labrinth::models::ids::to_base62;

#[test]
fn create_error_answers() {
    let e = CreateError::InvalidInput("bad".to_string());
    assert_eq!(e.status_code(), 400);
    assert_eq!(e.error_name(), "invalid_input");
    assert_eq!(e.description(), "Error with multipart data: bad");
    assert_eq!(CreateError::SqlxDatabaseError.status_code(), 500);
    assert_eq!(CreateError::SqlxDatabaseError.error_name(), "database_error");
    assert_eq!(CreateError::Unauthorized("x".to_string()).status_code(), 401);
    assert_eq!(CreateError::SlugCollision.description(), "Slug is already taken!");
    assert_eq!(CreateError::ImageError("y".to_string()).error_name(), "invalid_image");
    assert_eq!(CreateError::MissingValueError("plain".to_string()).description(), "plain");
}

#[test]
fn project_creation_defaults() {
    assert_eq!(default_project_type(), "mod");
    assert_eq!(default_requested_status(), ProjectStatus::Approved);
}

#[test]
fn data_part_comes_first() {
    assert!(check_data_part(Some(Some("data"))).is_ok());
    assert!(matches!(check_data_part(None), Err(CreateError::MissingValueError(m)) if m == "No `data` field in multipart upload"));
    assert!(matches!(check_data_part(Some(None)), Err(CreateError::MissingValueError(m)) if m == "Missing content name"));
    assert!(matches!(check_data_part(Some(Some("icon"))), Err(CreateError::InvalidInput(m)) if m == "`data` field must come before file fields"));
}

#[test]
fn upload_parts_after_data() {
    let mut state = UploadState { icon_uploaded: false, error: None };
    assert_eq!(next_part(&mut state, Some("icon"), "icon.png"), PartAction::UploadIcon);
    icon_done(&mut state, Ok(()));
    assert!(state.icon_uploaded);
    assert_eq!(next_part(&mut state, Some("icon"), "again.png"), PartAction::Skip);
    assert!(matches!(&state.error, Some(CreateError::InvalidInput(m)) if m == "Projects can only have one icon"));
    assert_eq!(next_part(&mut state, Some("x"), "x.jar"), PartAction::Skip);
    assert!(matches!(&state.error, Some(CreateError::InvalidInput(m)) if m == "Projects can only have one icon"));
    let mut fresh = UploadState { icon_uploaded: false, error: None };
    next_part(&mut fresh, Some("file"), "mod.jar");
    assert!(matches!(&fresh.error, Some(CreateError::InvalidInput(m)) if m == "File `mod.jar` (field file) isn't recognized. If it's a version, please use the version creation route after creating your project."));
}

#[test]
fn project_license_and_links() {
    assert_eq!(project_license("MIT").ok().as_deref(), Some("MIT"));
    assert_eq!(project_license("MIT OR Apache-2.0").ok().as_deref(), Some("MIT OR Apache-2.0"));
    assert!(matches!(project_license("not a license !!"), Err(CreateError::InvalidInput(m)) if m.starts_with("Invalid SPDX license identifier: ")));
    assert!(matches!(unknown_link_platform("myspace"), CreateError::InvalidInput(m) if m == "Link platform myspace does not exist."));
    assert!(check_project_image(ImageId(1), true, false).is_ok());
    assert!(matches!(check_project_image(ImageId(61), true, true), Err(CreateError::InvalidInput(m)) if m == "Image z is not unused and in the 'project' context"));
}

#[test]
fn new_project_team_and_status() {
    assert_eq!(initial_owner(None, UserId(4)), Some(UserId(4)));
    assert_eq!(initial_owner(Some(OrganizationId(1)), UserId(4)), None);
    assert_eq!(
        initial_member(None, UserId(4)),
        Some(InitialMember {
            user_id: UserId(4),
            is_owner: true,
            permissions: ProjectPermissions(0x3ff),
            organization_permissions: None,
            accepted: true,
            payouts_split_percent: 100,
            ordering: 0
        })
    );
    assert_eq!(initial_member(Some(OrganizationId(1)), UserId(4)), None);
    let data = ProjectCreateData {
        name: "n".to_string(),
        slug: "s".to_string(),
        summary: "s".to_string(),
        description: "d".to_string(),
        categories: vec![],
        additional_categories: vec![],
        license_url: None,
        link_urls: vec![],
        license_id: "MIT".to_string(),
        requested_status: ProjectStatus::Unlisted,
        uploaded_images: vec![],
        organization_id: None,
    };
    assert_eq!(initial_status(&data), (ProjectStatus::Draft, Some(ProjectStatus::Unlisted), MonetizationStatus::Monetized));
}

#[test]
fn release_channels() {
    assert_eq!(version_type_of_channel("beta"), ModVersionType::Beta);
    assert_eq!(version_type_of_channel("alpha-hidden"), ModVersionType::AlphaHidden);
    assert_eq!(version_type_of_channel("nightly"), ModVersionType::ReleaseHidden);
    assert_eq!(channel_id(ModVersionType::Release), 0);
    assert_eq!(channel_id(ModVersionType::Beta), 2);
    assert_eq!(channel_id(ModVersionType::Alpha), 4);
}

#[test]
fn stored_hashes_become_text() {
    let ok = vec![("sha1".to_string(), b"abc".to_vec()), ("sha512".to_string(), b"def".to_vec())];
    assert_eq!(file_hashes(&ok), vec![("sha1".to_string(), "abc".to_string()), ("sha512".to_string(), "def".to_string())]);
    let bad = vec![("sha1".to_string(), b"abc".to_vec()), ("sha512".to_string(), vec![0xff, 0xfe])];
    assert!(file_hashes(&bad).is_empty());
}

#[test]
fn stored_version_in_legacy_shape() {
    let q = QueryVersion {
        id: 62,
        mod_id: 1,
        author_id: 2,
        name: "v".to_string(),
        version_number: "1.0".to_string(),
        changelog_url: None,
        date_published: 7u32,
        downloads: 12,
        release_channel: "alpha".to_string(),
        files: vec![QueryFile { url: "u".to_string(), filename: "f.jar".to_string(), hashes: vec![] }],
        game_versions: vec!["1.20".to_string()],
        loaders: vec!["fabric".to_string()],
    };
    let v = convert_version(q);
    assert_eq!(v.id, VersionId(62));
    assert_eq!(v.mod_id, ModId(1));
    assert_eq!(v.downloads, 12);
    assert_eq!(v.version_type, ModVersionType::Alpha);
    assert_eq!(v.date_published, 7);
    assert_eq!(v.files[0].filename, "f.jar");
    assert!(v.dependencies.is_empty());
    assert_eq!(v.game_versions[0].0, "1.20");
    assert_eq!(v.loaders[0].0, "fabric");
}

#[test]
fn legacy_upload_parts() {
    assert_eq!(legacy_part(Some("data"), None, false).ok(), Some(LegacyPartAction::ReadData));
    assert_eq!(legacy_part(Some("file"), Some("mod.jar"), true).ok(), Some(LegacyPartAction::UploadJar));
    assert_eq!(legacy_part(Some("file"), Some("notes.txt"), true).ok(), Some(LegacyPartAction::Skip));
    assert!(matches!(legacy_part(Some("file"), Some("mod.jar"), false), Err(CreateError::InvalidInput(m)) if m == "`data` field must come before file fields"));
    assert!(matches!(legacy_part(Some("file"), Some("README"), true), Err(CreateError::MissingValueError(m)) if m == "Missing content file extension"));
    assert!(matches!(legacy_part(None, None, true), Err(CreateError::MissingValueError(m)) if m == "Missing content name"));
    assert_eq!(file_extension("a.tar.gz").as_deref(), Some("gz"));
    assert_eq!(file_extension("noext"), None);
    assert!(check_data_given(false).is_err());
}

#[test]
fn legacy_paths() {
    let data = InitialVersionData {
        mod_id: Some(ModId(62)),
        file_parts: vec![],
        version_number: "1.0".to_string(),
        version_title: "t".to_string(),
        version_body: "b".to_string(),
        dependencies: vec![],
        game_versions: vec![],
        release_channel: ModVersionType::Release,
        loaders: vec![],
    };
    let p = changelog_place(&data, VersionId(1), "https://cdn").ok().unwrap();
    assert_eq!(p.body_path, "data/10/changelogs/1/body.md");
    assert_eq!(p.changelog_url, "https://cdn/data/10/changelogs/1/body.md");
    assert_eq!(jar_path(-5, "1.0", "mod.jar"), "-5/1.0/mod.jar");
    assert_eq!(jar_path(62, "1.0", "mod.jar"), "62/1.0/mod.jar");
}

#[test]
fn new_project_slug_and_categories() {
    assert_eq!(slug_as_project_id("10"), Some(62));
    assert_eq!(slug_as_project_id("my-mod"), None);
    assert!(check_creation_slug(Some(false)).is_ok());
    assert!(check_creation_slug(None).is_ok());
    assert!(matches!(check_creation_slug(Some(true)), Err(CreateError::SlugCollision)));
    assert!(check_category("magic", true).is_ok());
    assert!(matches!(check_category("nope", false), Err(CreateError::InvalidCategory(m)) if m == "nope"));
    assert!(matches!(project_image_missing(ImageId(63)), CreateError::InvalidInput(m) if m == "Image 11 does not exist"));
}

#[test]
fn legacy_version_needs_its_mod() {
    assert!(check_mod_exists(Some(true)).is_ok());
    assert!(check_mod_exists(None).is_ok());
    assert!(matches!(check_mod_exists(Some(false)), Err(CreateError::InvalidInput(m)) if m == "An invalid mod id was supplied"));
}

#[test]
fn one_icon_per_upload() {
    let mut state = UploadState { icon_uploaded: false, error: None };
    assert_eq!(next_part(&mut state, Some("icon"), "a.png"), PartAction::UploadIcon);
    icon_done(&mut state, Ok(()));
    assert_eq!(next_part(&mut state, Some("icon"), "b.png"), PartAction::Skip);
    assert!(matches!(&state.error, Some(CreateError::InvalidInput(m)) if m == "Projects can only have one icon"));
    assert_eq!(next_part(&mut state, Some("icon"), "c.png"), PartAction::Skip);
    // A failed icon upload ends the upload: no second try.
    let mut failed = UploadState { icon_uploaded: false, error: None };
    assert_eq!(next_part(&mut failed, Some("icon"), "a.png"), PartAction::UploadIcon);
    icon_done(&mut failed, Err(CreateError::ImageError("bad".to_string())));
    assert_eq!(next_part(&mut failed, Some("icon"), "a.png"), PartAction::Skip);
    assert!(!failed.icon_uploaded);
}

#[test]
fn legacy_version_edits() {
    assert!(matches!(check_legacy_version_edit(false, false), Ok(EditStart::NotFound)));
    assert!(matches!(check_legacy_version_edit(false, true), Ok(EditStart::NotFound)));
    assert!(matches!(check_legacy_version_edit(true, true), Ok(EditStart::Edit)));
    assert!(matches!(check_legacy_version_edit(true, false), Err(ApiError::Authentication)));
    assert!(matches!(legacy_edit_channel(ModVersionType::BetaHidden, false, Some(3)), Err(ApiError::Authentication)));
    assert!(matches!(legacy_edit_channel(ModVersionType::BetaHidden, true, Some(3)), Ok(3)));
    assert!(matches!(legacy_edit_channel(ModVersionType::Beta, false, Some(2)), Ok(2)));
    assert!(matches!(legacy_edit_channel(ModVersionType::Beta, true, None),
        Err(ApiError::InvalidInput(m)) if m == "No database entry for version type provided."));
    assert!(matches!(legacy_edit_loader(Some(7)), Ok(7)));
    assert!(matches!(legacy_edit_loader(None),
        Err(ApiError::InvalidInput(m)) if m == "No database entry for loader provided."));
    assert_eq!(legacy_changelog_path(ModId(62), "1.0.0"), format!("data/{}/versions/1.0.0/changelog.md", to_base62(62)));
    assert_eq!(to_base62(62), "10");
}

#[test]
fn new_project_answer() {
    let data = ProjectCreateData {
        name: "Sodium".to_string(),
        slug: "sodium".to_string(),
        summary: "Fast".to_string(),
        description: "A mod".to_string(),
        categories: vec!["optimization".to_string()],
        additional_categories: vec![],
        license_url: None,
        link_urls: vec![],
        license_id: "LGPL-3.0-only".to_string(),
        requested_status: ProjectStatus::Approved,
        uploaded_images: vec![],
        organization_id: None,
    };
    let p: NewProject<i64, String> =
        new_project_record(data, ProjectId(7), TeamId(8), 9, Some(("https://cdn/icon.png".to_string(), Some(0xff))), 1000);
    assert_eq!(p.slug, Some("sodium".to_string()));
    assert_eq!(p.name, "Sodium");
    assert_eq!(p.status, ProjectStatus::Draft);
    assert_eq!(p.requested_status, Some(ProjectStatus::Approved));
    assert_eq!((p.downloads, p.followers), (0, 0));
    assert!(p.versions.is_empty() && p.gallery.is_empty() && p.loaders.is_empty());
    assert_eq!((p.published, p.updated, p.approved, p.queued), (1000, 1000, None, None));
    assert_eq!(p.license_id, "LGPL-3.0-only");
    assert_eq!(p.license_name, "");
    assert_eq!(p.icon_url, Some("https://cdn/icon.png".to_string()));
    assert_eq!(p.color, Some(0xff));
    assert_eq!(p.categories, vec!["optimization".to_string()]);
    assert_eq!(p.monetization_status, MonetizationStatus::Monetized);
    assert_eq!((p.id, p.team_id, p.thread_id), (ProjectId(7), TeamId(8), 9));
}
