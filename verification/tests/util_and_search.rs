use labrinth::models::ids::ProjectId;
use labrinth::routes::v2::analytics_get::{analytics_window, check_id_choice, group_figures, parse_ids, AnalyticsRow, AnalyticsWindow};
use labrinth::routes::v2::collections::{
    check_collection_edit, check_collection_icon_edit, check_collection_slug_lookup, collection_edit_rights, slug_as_collection_id,
    EditCollection, EditRights,
};
use labrinth::routes::v2::pat::{access_token_text, edited_scope, parse_access_token, ModifyPersonalAccessToken};
use labrinth::routes::v2::statistics::stats_from_v3;
use labrinth::routes::v2::teams::{default_ordering, default_role};
use labrinth::routes::v2::tags::{donation_platform_name, loader_from_v3};
use labrinth::routes::v3::collections::{
    can_modify_collection, check_collection_modify, check_collection_status, collection_project_rows,
};
use labrinth::routes::v3::follow::{follow_error, FollowFailure};
use labrinth::routes::v3::moderation;
use labrinth::routes::v3::statistics::{
    count_step, listed_versions_only, searchable_status_names, stat_key, statistics_namespace, CountStep, StatKind, V3Stats,
    STATISTICS_EXPIRY,
};
use labrinth::routes::v3::tags::{license_list, license_text, LoaderData};
use labrinth::routes::ApiError;
use labrinth::models::ids::{PatToken, UserId};
use labrinth::search::indexing::local_import::{
    first_word, index_author, index_project, split_categories, split_gallery, CategoryRow, GalleryRow, LocalProject,
};
use labrinth::util::ip::client_ip;
use labrinth::util::multipart::{build_multipart_body, MultipartBuildSegment, MultipartBuildSegmentData};
use labrinth::util::ratelimit::bypasses_rate_limit;
use labrinth::util::routes::{collect_chunks, initial_capacity};
use labrinth::util::sort::stable_order;
use labrinth::util::text::{join_strings, signed_decimal_string, trim};
use labrinth::util::webhook::{review_color, review_fields, review_url, ReviewedProject};
use labrinth::routes::v3::project_creation::CreateError;

#[test]
fn trim_and_join() {
    assert_eq!(trim("  a b \t\n"), "a b");
    assert_eq!(trim("\u{3000}x\u{a0}"), "x");
    assert_eq!(trim("   "), "");
    assert_eq!(join_strings(&vec!["a".to_string(), "b".to_string(), "c".to_string()], ", "), "a, b, c");
    assert_eq!(join_strings(&vec![], ", "), "");
    assert_eq!(signed_decimal_string(-120), "-120");
    assert_eq!(signed_decimal_string(i64::MIN), "-9223372036854775808");
}

#[test]
fn client_address_and_rate_limit() {
    assert_eq!(client_ip(true, Some("1.2.3.4"), "9.9.9.9".to_string()), "1.2.3.4");
    assert_eq!(client_ip(false, Some("1.2.3.4"), "9.9.9.9".to_string()), "9.9.9.9");
    assert_eq!(client_ip(true, None, "9.9.9.9".to_string()), "9.9.9.9");
    assert!(bypasses_rate_limit(Some(Some("k")), Some("k")));
    assert!(!bypasses_rate_limit(Some(Some("k")), Some("other")));
    assert!(!bypasses_rate_limit(None, Some("k")));
    assert!(bypasses_rate_limit(Some(None), None));
    assert!(!bypasses_rate_limit(Some(Some("k")), None));
}

#[test]
fn reading_parts_within_limits() {
    assert_eq!(initial_capacity(None, 100, "big").ok(), Some(32768));
    assert_eq!(initial_capacity(Some(Some(50)), 100, "big").ok(), Some(50));
    assert_eq!(initial_capacity(Some(Some(100_000)), 1_000_000, "big").ok(), Some(32768));
    assert!(matches!(initial_capacity(Some(Some(101)), 100, "big"), Err(CreateError::InvalidInput(m)) if m == "big"));
    let chunks = vec![vec![1u8, 2], vec![3u8, 4, 5]];
    assert_eq!(collect_chunks(&chunks, 3, "big").ok(), Some(vec![1, 2, 3, 4, 5]));
    assert!(collect_chunks(&chunks, 2, "big").is_err());
}

#[test]
fn stable_order_by_key() {
    assert_eq!(stable_order(&[3, 1, 2, 1]), vec![1, 3, 2, 0]);
}

#[test]
fn multipart_body_bytes() {
    let segs = vec![MultipartBuildSegment {
        name: "data".to_string(),
        filename: None,
        content_type: Some("application/json".to_string()),
        data: MultipartBuildSegmentData::Text("{}".to_string()),
    }];
    let body = build_multipart_body("XY", &segs);
    assert_eq!(
        String::from_utf8(body).unwrap(),
        "--XY\r\nContent-Disposition: form-data; name=\"data\"\r\nContent-Type: application/json\r\n\r\n{}\r\n--XY--\r\n"
    );
}

#[test]
fn review_announcement() {
    let p = ReviewedProject {
        id: ProjectId(62),
        project_type: "mod".to_string(),
        client_side: "required".to_string(),
        server_side: "optional".to_string(),
        categories: vec!["magic".to_string(), "tech".to_string()],
        slug: None,
    };
    let fields = review_fields(&p);
    let names: Vec<&str> = fields.iter().map(|f| f.name).collect();
    assert_eq!(names, vec!["id", "project_type", "client_side", "server_side", "categories"]);
    assert_eq!(fields[0].value, "10");
    assert_eq!(fields[4].value, "magic, tech");
    assert_eq!(review_url("https://site", &p), "https://site/mod/10");
    assert_eq!(review_color(), 0x1bd96a);
}

#[test]
fn analytics_ids_and_grouping() {
    assert!(check_id_choice(true, false).is_ok());
    assert!(matches!(check_id_choice(true, true), Err(ApiError::InvalidInput(m)) if m == "Only one of 'project_ids' or 'version_ids' should be used."));
    assert_eq!(parse_ids(&vec!["10".to_string(), "z".to_string()]).ok(), Some(vec![62, 61]));
    assert!(matches!(parse_ids(&vec!["10".to_string(), "!".to_string()]), Err(ApiError::Decoding(_))));
    let rows = vec![
        AnalyticsRow { id: 62, key: "20230824".to_string(), value: 1 },
        AnalyticsRow { id: 1, key: "20230824".to_string(), value: 2 },
        AnalyticsRow { id: 62, key: "20230824".to_string(), value: 3 },
        AnalyticsRow { id: 62, key: "20230825".to_string(), value: 4 },
    ];
    let g = group_figures(&rows);
    assert_eq!(g.len(), 2);
    assert_eq!(g[0].0, "10");
    assert_eq!(g[0].1, vec![("20230824".to_string(), 3), ("20230825".to_string(), 4)]);
    assert_eq!(g[1].0, "1");
    assert_eq!(g[1].1, vec![("20230824".to_string(), 2)]);
}

#[test]
fn collection_rules() {
    assert_eq!(collection_edit_rights(true, None, false), Some(EditRights { details: true, body: true }));
    let member = Some(EditRights { details: false, body: true });
    assert_eq!(collection_edit_rights(false, member, true), member);
    assert_eq!(collection_edit_rights(false, None, false), None);
    let edit = EditCollection { title: Some("t".to_string()), description: None, body: None, slug: None, add_projects: None, remove_projects: None };
    assert!(matches!(check_collection_edit(member, &edit), Err(ApiError::CustomAuthentication(m)) if m == "You do not have the permissions to edit the title of this collection!"));
    assert!(matches!(check_collection_edit(None, &edit), Err(ApiError::CustomAuthentication(m)) if m == "You do not have permission to edit this project!"));
    assert!(can_modify_collection(UserId(1), UserId(1), false));
    assert!(can_modify_collection(UserId(1), UserId(2), true));
    assert!(check_collection_modify(UserId(1), UserId(2), false).is_err());
    assert!(check_collection_status(false, true, true).is_ok());
    assert!(check_collection_status(false, false, true).is_err());
}

#[test]
fn small_defaults_and_conversions() {
    assert_eq!(default_role(), "Member");
    assert_eq!(default_ordering(), 0);
    assert_eq!(moderation::default_count(), 100);
    let s = stats_from_v3(V3Stats { projects: 1, versions: 2, authors: 3, files: 4 });
    assert_eq!((s.projects, s.files), (Some(1), Some(4)));
    assert!(matches!(parse_access_token("10"), Ok(PatToken(62))));
    let edit = ModifyPersonalAccessToken { access_token: "10".to_string(), scope: None, expire_in_days: None };
    assert_eq!(edited_scope(&edit, "old".to_string()), "old");
    assert!(matches!(follow_error(FollowFailure::Missing, "user"), ApiError::InvalidInput(m) if m == "The specified user does not exist!"));
    assert!(matches!(follow_error(FollowFailure::AlreadyFollowing, "organization"), ApiError::InvalidInput(m) if m == "You are already following this organization!"));
}

#[test]
fn tags_and_licenses() {
    assert_eq!(donation_platform_name("bmac"), "Buy Me A Coffee");
    assert_eq!(donation_platform_name("liberapay"), "Liberapay");
    let l = loader_from_v3(&LoaderData {
        icon: "i".to_string(),
        name: "fabric".to_string(),
        supported_project_types: vec!["mod".to_string()],
        supported_games: vec![],
        supported_fields: vec![],
    });
    assert_eq!(l.supported_project_types, vec!["mod".to_string(), "project".to_string(), "modpack".to_string()]);
    let licenses = license_list();
    assert!(licenses.iter().any(|l| l.short == "MIT"));
    let mit = license_text("MIT".to_string()).ok().unwrap();
    assert_eq!(mit.title, "MIT License");
    let arr = license_text("LicenseRef-All-Rights-Reserved".to_string()).ok().unwrap();
    assert_eq!(arr.title, "All Rights Reserved");
    assert!(matches!(license_text("nope".to_string()), Err(ApiError::InvalidInput(_))));
}

#[test]
fn local_index_documents() {
    assert_eq!(index_author(None, Some("team".to_string())).as_deref(), Some("team"));
    assert_eq!(index_author(Some("org".to_string()), Some("team".to_string())).as_deref(), Some("org"));
    assert_eq!(first_word("MIT OR Apache-2.0"), "MIT");
    assert_eq!(first_word("GPL-3.0"), "GPL-3.0");
    let gallery = vec![
        GalleryRow { url: "b".to_string(), featured: false, ordering: 2 },
        GalleryRow { url: "a".to_string(), featured: true, ordering: 1 },
        GalleryRow { url: "c".to_string(), featured: true, ordering: 3 },
    ];
    assert_eq!(split_gallery(&gallery), (Some("a".to_string()), vec!["b".to_string(), "c".to_string()]));
    let cats = vec![
        CategoryRow { name: "magic".to_string(), is_additional: false },
        CategoryRow { name: "tech".to_string(), is_additional: true },
    ];
    assert_eq!(split_categories(&cats), (vec!["magic".to_string(), "tech".to_string()], vec!["tech".to_string()]));
    let p = LocalProject {
        id: 62,
        name: "n".to_string(),
        summary: "s".to_string(),
        downloads: 5,
        follows: 6,
        icon_url: None,
        updated: 1u8,
        updated_timestamp: 100,
        approved: 2u8,
        approved_timestamp: 50,
        slug: Some("slug".to_string()),
        color: Some(-1),
        license: "MIT extra".to_string(),
    };
    let docs = index_project(&p, None, None, &gallery, &cats, &[1, 2]);
    assert!(docs.is_empty());
    let docs = index_project(&p, None, Some("owner".to_string()), &gallery, &cats, &[1, 61]);
    assert_eq!(docs.len(), 2);
    assert_eq!(docs[1].version_id, "z");
    assert_eq!(docs[0].project_id, "10");
    assert_eq!(docs[0].license, "MIT");
    assert!(docs[0].open_source);
    assert_eq!(docs[0].color, Some(u32::MAX));
    assert_eq!(docs[0].featured_gallery.as_deref(), Some("a"));
    assert_eq!(docs[0].display_categories, vec!["tech".to_string()]);
    assert_eq!(docs[0].created_timestamp, 50);
    assert_eq!(docs[0].author, "owner");
}

#[test]
fn access_token_text_reads_back() {
    for t in [0i64, 1, 62, -1, i64::MIN, i64::MAX, 123456789] {
        let text = access_token_text(PatToken(t));
        assert!(matches!(parse_access_token(&text), Ok(PatToken(x)) if x == t));
    }
    assert_eq!(access_token_text(PatToken(62)), "10");
}

#[test]
fn collection_slug_and_icon_rights() {
    assert_eq!(slug_as_collection_id("10"), Some(62));
    assert_eq!(slug_as_collection_id("my-list"), None);
    assert!(check_collection_slug_lookup(Some(false)).is_ok());
    assert!(matches!(check_collection_slug_lookup(Some(true)), Err(ApiError::InvalidInput(m)) if m == "Slug collides with other collections's id!"));
    assert!(check_collection_icon_edit(true, None).is_ok());
    assert!(check_collection_icon_edit(false, Some(true)).is_ok());
    assert!(matches!(check_collection_icon_edit(false, None), Err(ApiError::InvalidInput(m)) if m == "The specified collection does not exist!"));
    assert!(matches!(check_collection_icon_edit(false, Some(false)),
        Err(ApiError::CustomAuthentication(m)) if m == "You don't have permission to edit this collection's icon."));
}

#[test]
fn statistics_cache_steps() {
    assert_eq!(statistics_namespace(), "statistics");
    assert_eq!(stat_key(StatKind::Projects), "projects");
    assert_eq!(stat_key(StatKind::Files), "files");
    assert!(listed_versions_only(StatKind::Versions));
    assert!(!listed_versions_only(StatKind::Authors));
    assert!(matches!(count_step(StatKind::Authors, Some(12)), CountStep::UseCached(12)));
    assert!(matches!(count_step(StatKind::Versions, None),
        CountStep::CountAndStore { key: "versions", expiry: 1800 }));
    assert_eq!(STATISTICS_EXPIRY, 1800);
    assert_eq!(searchable_status_names(), vec!["approved".to_string(), "archived".to_string()]);
}

#[test]
fn collection_projects_are_replaced() {
    let names = vec!["a".to_string(), "b".to_string(), "c".to_string()];
    let rows = collection_project_rows(9, &names, &vec![Some(1), Some(2), Some(3)]);
    assert!(matches!(rows, Ok((c, p)) if c == vec![9, 9, 9] && p == vec![1, 2, 3]));
    let missing = collection_project_rows(9, &names, &vec![Some(1), None, None]);
    assert!(matches!(missing,
        Err(labrinth::routes::ApiError::InvalidInput(m)) if m == "The specified project b does not exist!"));
    assert!(matches!(collection_project_rows(9, &vec![], &vec![]), Ok((c, p)) if c.is_empty() && p.is_empty()));
}

#[test]
fn analytics_default_window() {
    assert_eq!(
        analytics_window(None, None, None, 19600),
        AnalyticsWindow { start_day: 19586, end_day: 19600, resolution_minutes: 1440 }
    );
    assert_eq!(
        analytics_window(Some(10), Some(20), Some(60), 19600),
        AnalyticsWindow { start_day: 10, end_day: 20, resolution_minutes: 60 }
    );
}
