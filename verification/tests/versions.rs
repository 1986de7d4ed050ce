use labrinth::models::projects::{FileType, Loader, VersionStatus, VersionType};
use labrinth::routes::v2::version_file::FileHashes as V2FileHashes;
use labrinth::routes::v2::versions::{v2_loaders, v3_edit, v3_filters, EditVersion as V2EditVersion, EditVersionFileType as V2FileType, VersionListFilters as V2Filters};
use labrinth::routes::v3::version_file::{
    check_file_delete, default_algorithm_from_hashes, entry_for_hash, hash_algorithm, latest_update, lookup_hash,
    UpdateCandidate, UpdateData,
};
use labrinth::routes::v3::versions::{
    find_project_version, list_versions, missing_file_error, missing_loader_field_error, plan_version_edit,
    select_versions, DownloadsChange, EditVersion, ListedVersion, VersionKey, VersionListFilters,
};
use labrinth::routes::ApiError;

fn v(version_type: &str, loaders: &[&str], featured: bool, published: i64) -> ListedVersion {
    ListedVersion {
        version_type: version_type.to_string(),
        loaders: loaders.iter().map(|x| x.to_string()).collect(),
        featured,
        published,
        fields_match: true,
    }
}

fn filters() -> VersionListFilters {
    VersionListFilters { loaders: None, featured: None, version_type: None, limit: None, offset: None, loader_fields: None }
}

#[test]
fn listing_orders_newest_first() {
    let versions = vec![v("release", &["fabric"], false, 10), v("beta", &["forge"], true, 30), v("release", &["forge"], false, 20)];
    assert_eq!(list_versions(&versions, &filters(), &None), vec![1, 2, 0]);
}

#[test]
fn listing_filters_and_window() {
    let versions = vec![v("release", &["fabric"], false, 10), v("beta", &["forge"], true, 30), v("release", &["forge"], false, 20)];
    let mut f = filters();
    f.version_type = Some(VersionType::Release);
    assert_eq!(list_versions(&versions, &f, &None), vec![2, 0]);
    let mut f = filters();
    f.offset = Some(1);
    f.limit = Some(1);
    assert_eq!(list_versions(&versions, &f, &None), vec![1]);
    assert_eq!(list_versions(&versions, &filters(), &Some(vec!["fabric".to_string()])), vec![0]);
}

#[test]
fn listing_falls_back_when_nothing_featured() {
    let versions = vec![v("release", &["fabric"], false, 10), v("release", &["forge"], false, 20)];
    let mut f = filters();
    f.featured = Some(true);
    assert_eq!(list_versions(&versions, &f, &None), vec![1, 0]);
    f.featured = Some(false);
    assert_eq!(list_versions(&versions, &f, &None), vec![1, 0]);
}

#[test]
fn listing_reads_loaders_from_json() {
    let versions = vec![v("release", &["fabric"], false, 10), v("release", &["forge"], false, 20)];
    let mut f = filters();
    f.loaders = Some("[\"forge\"]".to_string());
    assert_eq!(select_versions(&versions, &f), vec![1]);
    f.loaders = Some("not json".to_string());
    assert_eq!(select_versions(&versions, &f), Vec::<usize>::new());
}

#[test]
fn v2_listing_asks_for_modpacks_too() {
    let f = V2Filters {
        game_versions: Some("[\"1.20\"]".to_string()),
        loaders: Some("[\"fabric\"]".to_string()),
        featured: Some(true),
        version_type: None,
        limit: Some(5),
        offset: None,
    };
    assert_eq!(v2_loaders(&f), Some(vec!["fabric".to_string(), "mrpack".to_string()]));
    let v3 = v3_filters(f);
    assert_eq!(v3.loaders.as_deref(), Some("[\"fabric\",\"mrpack\"]"));
    assert_eq!(v3.loader_fields.as_deref(), Some("{\"game_versions\":[\"1.20\"],\"loaders\":[\"fabric\",\"mrpack\"]}"));
    assert_eq!(v3.limit, Some(5));
    assert_eq!(v3.featured, Some(true));
}

fn edit() -> EditVersion {
    EditVersion {
        name: None,
        version_number: None,
        changelog: None,
        version_type: None,
        dependencies: None,
        loaders: None,
        featured: None,
        primary_file: None,
        downloads: None,
        status: None,
        file_types: None,
        fields: vec![],
    }
}

#[test]
fn version_edit_permissions() {
    match plan_version_edit(None, false, Some("mod"), 0, &edit()) {
        Err(ApiError::CustomAuthentication(m)) => assert_eq!(m, "You do not have permission to edit this version!"),
        _ => panic!(),
    }
    match plan_version_edit(Some(false), false, Some("mod"), 0, &edit()) {
        Err(ApiError::CustomAuthentication(m)) => assert_eq!(m, "You do not have the permissions to edit this version!"),
        _ => panic!(),
    }
    let mut e = edit();
    e.downloads = Some(5);
    assert!(plan_version_edit(Some(true), false, Some("mod"), 0, &e).is_err());
    let mut e = edit();
    e.status = Some(VersionStatus::Scheduled);
    match plan_version_edit(Some(true), false, Some("mod"), 0, &e) {
        Err(ApiError::InvalidInput(m)) => assert_eq!(m, "The requested status cannot be set!"),
        _ => panic!(),
    }
}

#[test]
fn version_edit_plan() {
    let mut e = edit();
    e.name = Some("  New name \n".to_string());
    e.downloads = Some(10);
    e.dependencies = Some(vec![]);
    let plan = plan_version_edit(Some(true), true, Some("mod"), 25, &e).ok().unwrap();
    assert_eq!(plan.name.as_deref(), Some("New name"));
    assert!(plan.replace_dependencies);
    assert_eq!(plan.downloads, Some(DownloadsChange { stored: 10, project_delta: -15 }));
    let plan = plan_version_edit(Some(true), true, Some("modpack"), 25, &e).ok().unwrap();
    assert!(!plan.replace_dependencies);
    let plan = plan_version_edit(Some(true), true, None, 25, &e).ok().unwrap();
    assert!(!plan.replace_dependencies);
}

#[test]
fn version_lookup_errors() {
    match missing_file_error("abc") {
        ApiError::InvalidInput(m) => assert_eq!(m, "Specified file with hash abc does not exist."),
        _ => panic!(),
    }
    match missing_loader_field_error("game_versions") {
        ApiError::InvalidInput(m) => assert_eq!(m, "Loader field 'game_versions' does not exist."),
        _ => panic!(),
    }
}

#[test]
fn v2_version_edit_moves_loaders_for_modpacks() {
    let e = V2EditVersion {
        name: Some("n".to_string()),
        version_number: None,
        changelog: None,
        version_type: Some(VersionType::Beta),
        dependencies: None,
        game_versions: Some(vec!["1.20".to_string()]),
        loaders: Some(vec![Loader("fabric".to_string())]),
        featured: None,
        primary_file: None,
        downloads: None,
        status: None,
        file_types: Some(vec![V2FileType { algorithm: "sha1".to_string(), hash: "h".to_string(), file_type: Some(FileType::Unknown) }]),
    };
    let out = v3_edit(e, true);
    assert!(out.loaders.is_none());
    assert_eq!(
        out.fields,
        vec![
            ("game_versions".to_string(), "[\"1.20\"]".to_string()),
            ("mrpack_loaders".to_string(), "[\"fabric\"]".to_string())
        ]
    );
    assert_eq!(out.file_types.unwrap()[0].hash, "h");
}

#[test]
fn version_found_by_id_or_number() {
    let versions = vec![
        VersionKey { id: 5, version_number: "1.0".to_string() },
        VersionKey { id: 62, version_number: "2.0".to_string() },
    ];
    assert_eq!(find_project_version(&versions, "10"), Some(1));
    assert_eq!(find_project_version(&versions, "1.0"), Some(0));
    assert_eq!(find_project_version(&versions, "3.0"), None);
}

#[test]
fn hash_algorithm_by_length() {
    let sha1 = "a".repeat(40);
    let sha512 = "b".repeat(128);
    assert_eq!(default_algorithm_from_hashes(&[sha1.clone()]), "sha1");
    assert_eq!(default_algorithm_from_hashes(&[sha512.clone(), sha1.clone()]), "sha512");
    assert_eq!(default_algorithm_from_hashes(&Vec::<String>::new()), "sha1");
    assert_eq!(hash_algorithm(&Some("sha256".to_string()), &[sha512.clone()]), "sha256");
    assert_eq!(hash_algorithm(&None, &[sha512]), "sha512");
    let f = V2FileHashes { algorithm: None, hashes: vec![sha1] }.into_v3();
    assert_eq!(f.hashes.len(), 1);
    assert_eq!(lookup_hash("ABCdef"), "abcdef");
}

fn c(version_type: &str, loaders: &[&str], order_key: i64) -> UpdateCandidate {
    UpdateCandidate {
        version_type: version_type.to_string(),
        loaders: loaders.iter().map(|x| x.to_string()).collect(),
        fields_match: true,
        order_key,
    }
}

#[test]
fn update_is_the_newest_match() {
    let cands = vec![c("release", &["fabric"], 1), c("beta", &["fabric"], 3), c("release", &["forge"], 2), c("release", &["fabric"], 2)];
    let any = UpdateData { loaders: None, version_types: None };
    assert_eq!(latest_update(&cands, &any), Some(1));
    let release_fabric = UpdateData { loaders: Some(vec!["fabric".to_string()]), version_types: Some(vec![VersionType::Release]) };
    assert_eq!(latest_update(&cands, &release_fabric), Some(3));
    let alpha = UpdateData { loaders: None, version_types: Some(vec![VersionType::Alpha]) };
    assert_eq!(latest_update(&cands, &alpha), None);
    let ties = vec![c("release", &[], 2), c("release", &[], 2)];
    assert_eq!(latest_update(&ties, &any), Some(1));
    assert_eq!(entry_for_hash(&vec!["a".to_string(), "b".to_string(), "b".to_string()], "b"), Some(1));
}

#[test]
fn file_delete_rules() {
    assert!(check_file_delete(true, false, Some(2)).is_ok());
    match check_file_delete(false, false, Some(2)) {
        Err(ApiError::CustomAuthentication(m)) => assert_eq!(m, "You don't have permission to delete this file!"),
        _ => panic!(),
    }
    match check_file_delete(false, true, Some(1)) {
        Err(ApiError::InvalidInput(m)) => assert_eq!(m, "Versions must have at least one file uploaded to them"),
        _ => panic!(),
    }
    assert!(check_file_delete(false, true, None).is_ok());
}
