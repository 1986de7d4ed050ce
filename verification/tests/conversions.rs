use labrinth::models::ids::{UserId, VersionId};
use labrinth::models::users::Role;
use labrinth::models::v2::projects::DonationLink;
use labrinth::routes::v2::projects::{bulk_edit_link_urls, v2_edit_link_urls, v3_facets, BulkEditProject};
use labrinth::routes::v2::tags::{
    category_from_v3, donation_platforms_from_v3, game_version_filters, game_version_from_v3, loaders_from_v3, GameVersionQuery,
    GameVersionValue, MetadataFilter,
};
use labrinth::routes::v2::versions::v2_loader_fields;
use labrinth::models::v2::projects::LegacySideType;
use labrinth::routes::v2_reroute::convert_side_types_v2_bools;
use labrinth::routes::v3::notifications::notification_open_to;
use labrinth::routes::v3::reports::report_visible;
use labrinth::routes::v3::tags::{CategoryData, LinkPlatformQueryData, LoaderData};
use labrinth::routes::v3::versions::{loader_filter, VersionListFilters};
use labrinth::routes::versions::{files_from_query, QueryFile};
use labrinth::search::indexing::local_import::{version_documents, IndexParts, LocalProject};
use labrinth::util::access::may_access;
use labrinth::util::cors::{analytics_origins, AllowedOrigins};
use labrinth::util::auth::{
    admit_team_rows, authorization_check, partition_for_authorization, AuthItem, AuthRow, AuthorizationCheck,
};
use labrinth::util::multipart::{generate_multipart_body, random_boundary, MultipartBuildSegment, MultipartBuildSegmentData};
use labrinth::util::text::{clone_strings, decimal_string, push_bytes, push_str_bytes, str_chars, str_eq, string_from_chars};

fn strings(v: &[&str]) -> Vec<String> {
    v.iter().map(|s| s.to_string()).collect()
}

#[test]
fn authorization_of_hidden_items() {
    assert_eq!(authorization_check(false, None), AuthorizationCheck::Authorized);
    assert_eq!(authorization_check(true, None), AuthorizationCheck::Unauthorized);
    assert_eq!(authorization_check(true, Some(true)), AuthorizationCheck::Authorized);
    assert_eq!(authorization_check(true, Some(false)), AuthorizationCheck::CheckTeam);
    let items = vec![
        AuthItem { id: 1, team_id: 10, hidden: false },
        AuthItem { id: 2, team_id: 20, hidden: true },
        AuthItem { id: 3, team_id: 30, hidden: true },
    ];
    assert_eq!(partition_for_authorization(&items, None), (vec![0], vec![]));
    assert_eq!(partition_for_authorization(&items, Some(true)), (vec![0, 1, 2], vec![]));
    let (shown, waiting) = partition_for_authorization(&items, Some(false));
    assert_eq!((shown.clone(), waiting.clone()), (vec![0], vec![1, 2]));
    let rows = vec![AuthRow { id: 3, team_id: Some(30) }, AuthRow { id: 2, team_id: Some(99) }];
    assert_eq!(admit_team_rows(&items, waiting, &rows), (vec![2], vec![1]));
}

#[test]
fn owners_and_privileged_reach() {
    assert!(may_access(UserId(1), UserId(1), false));
    assert!(may_access(UserId(1), UserId(2), true));
    assert!(!may_access(UserId(1), UserId(2), false));
    assert!(notification_open_to(UserId(4), UserId(5), true));
    assert!(!notification_open_to(UserId(4), UserId(5), false));
    assert!(report_visible(false, UserId(7), UserId(7)));
    assert!(!report_visible(false, UserId(7), UserId(8)));
    let _ = Role::Admin;
}

#[test]
fn text_helpers() {
    assert_eq!(decimal_string(0), "0");
    assert_eq!(decimal_string(1234567890), "1234567890");
    assert_eq!(str_chars("añb"), vec!['a', 'ñ', 'b']);
    assert_eq!(string_from_chars(&['x', 'ÿ']), "xÿ");
    assert!(str_eq("abc", "abc"));
    assert!(!str_eq("abc", "abd"));
    let v = strings(&["a", "b"]);
    assert_eq!(clone_strings(&v), v);
    let mut out = vec![1u8];
    push_bytes(&mut out, &[2, 3]);
    push_str_bytes(&mut out, "é");
    assert_eq!(out, vec![1, 2, 3, 0xc3, 0xa9]);
}

#[test]
fn multipart_bodies_use_their_boundary() {
    let b = random_boundary();
    assert!(b.starts_with("----WebKitFormBoundary"));
    assert!(b["----WebKitFormBoundary".len()..].chars().all(|c| c.is_ascii_digit()));
    let segs = vec![MultipartBuildSegment {
        name: "data".to_string(),
        filename: None,
        content_type: Some("application/json".to_string()),
        data: MultipartBuildSegmentData::Text("{}".to_string()),
    }];
    let (boundary, body) = generate_multipart_body(&segs);
    let expected = format!(
        "--{b}\r\nContent-Disposition: form-data; name=\"data\"\r\nContent-Type: application/json\r\n\r\n{{}}\r\n--{b}--\r\n",
        b = boundary
    );
    assert_eq!(String::from_utf8(body).unwrap(), expected);
}

#[test]
fn side_types_from_v2_flags() {
    assert_eq!(
        convert_side_types_v2_bools(None, false, false, None, Some("plugin")),
        (LegacySideType::Unsupported, LegacySideType::Required)
    );
}

#[test]
fn tags_in_v2_shape() {
    let c = category_from_v3(CategoryData {
        icon: "i".to_string(),
        name: "magic".to_string(),
        project_type: "mod".to_string(),
        header: "categories".to_string(),
    });
    assert_eq!((c.icon.as_str(), c.name.as_str(), c.project_type.as_str(), c.header.as_str()), ("i", "magic", "mod", "categories"));
    let platforms = vec![
        LinkPlatformQueryData { name: "ko-fi".to_string(), donation: true },
        LinkPlatformQueryData { name: "discord".to_string(), donation: false },
        LinkPlatformQueryData { name: "liberapay".to_string(), donation: true },
    ];
    let d = donation_platforms_from_v3(&platforms);
    assert_eq!(d.len(), 2);
    assert_eq!((d[0].short.as_str(), d[0].name.as_str()), ("ko-fi", "Ko-fi"));
    assert_eq!((d[1].short.as_str(), d[1].name.as_str()), ("liberapay", "Liberapay"));
    let loaders = vec![
        LoaderData {
            icon: "f".to_string(),
            name: "fabric".to_string(),
            supported_project_types: strings(&["mod"]),
            supported_games: strings(&["minecraft-java"]),
            supported_fields: vec![],
        },
        LoaderData {
            icon: "m".to_string(),
            name: "mrpack".to_string(),
            supported_project_types: strings(&["modpack"]),
            supported_games: vec![],
            supported_fields: vec![],
        },
        LoaderData {
            icon: "d".to_string(),
            name: "datapack".to_string(),
            supported_project_types: strings(&["datapack"]),
            supported_games: vec![],
            supported_fields: vec![],
        },
    ];
    let v2 = loaders_from_v3(&loaders);
    assert_eq!(v2.len(), 2);
    assert_eq!(v2[0].supported_project_types, strings(&["mod", "project", "modpack"]));
    assert_eq!(v2[1].supported_project_types, strings(&["datapack", "project", "mod"]));
}

#[test]
fn link_edits_in_order() {
    let edits = v2_edit_link_urls(
        Some(Some("https://issues".to_string())),
        None,
        Some(None),
        None,
        Some(vec![DonationLink { id: "ko-fi".to_string(), url: "https://ko-fi.com/x".to_string() }]),
        strings(&["patreon"]),
    );
    assert_eq!(
        edits,
        vec![
            ("issues".to_string(), Some("https://issues".to_string())),
            ("wiki".to_string(), None),
            ("patreon".to_string(), None),
            ("ko-fi".to_string(), Some("https://ko-fi.com/x".to_string())),
        ]
    );
    let bulk = BulkEditProject {
        categories: None,
        add_categories: None,
        remove_categories: None,
        additional_categories: None,
        add_additional_categories: None,
        remove_additional_categories: None,
        donation_urls: None,
        add_donation_urls: Some(vec![DonationLink { id: "paypal".to_string(), url: "p".to_string() }]),
        remove_donation_urls: Some(vec![DonationLink { id: "bmac".to_string(), url: "b".to_string() }]),
        issues_url: None,
        source_url: Some(Some("s".to_string())),
        wiki_url: None,
        discord_url: None,
    };
    assert_eq!(
        bulk_edit_link_urls(&bulk, &strings(&["unused"])),
        vec![
            ("bmac".to_string(), None),
            ("paypal".to_string(), Some("p".to_string())),
            ("source".to_string(), Some("s".to_string())),
        ]
    );
}

#[test]
fn facets_for_v3_search() {
    let facets = vec![strings(&["project_type:mod"]), strings(&["versions:1.20.1", "title:abc"])];
    assert_eq!(
        v3_facets(facets),
        vec![
            strings(&["project_types:plugin", "project_types:datapack", "project_types:mod"]),
            strings(&["game_versions:1.20.1", "name:abc"]),
        ]
    );
}

#[test]
fn listing_filters() {
    let f = VersionListFilters {
        loaders: Some("[\"fabric\",\"quilt\"]".to_string()),
        featured: None,
        version_type: None,
        limit: None,
        offset: None,
        loader_fields: None,
    };
    assert_eq!(loader_filter(&f), Some(strings(&["fabric", "quilt"])));
    let bad = VersionListFilters { loaders: Some("nope".to_string()), ..f };
    assert_eq!(loader_filter(&bad), Some(vec![]));
    assert_eq!(
        v2_loader_fields(&Some("[\"1.20\"]".to_string()), &Some(strings(&["fabric"]))),
        Some("{\"game_versions\":[\"1.20\"],\"loaders\":[\"fabric\"]}".to_string())
    );
    assert_eq!(v2_loader_fields(&Some("[\"1.20\"]".to_string()), &None), Some("{\"game_versions\":[\"1.20\"]}".to_string()));
    assert_eq!(v2_loader_fields(&None, &Some(strings(&["fabric"]))), None);
}

#[test]
fn stored_files_in_first_generation_shape() {
    let files = vec![QueryFile {
        url: "u".to_string(),
        filename: "f.jar".to_string(),
        hashes: vec![("sha1".to_string(), b"abcd".to_vec())],
    }];
    let out = files_from_query(files);
    assert_eq!(out.len(), 1);
    assert_eq!(out[0].url, "u");
    assert_eq!(out[0].hashes, vec![("sha1".to_string(), "abcd".to_string())]);
    let _ = VersionId(1);
}

#[test]
fn one_document_per_version() {
    let p = LocalProject {
        id: 1,
        name: "n".to_string(),
        summary: "s".to_string(),
        downloads: 1,
        follows: 2,
        icon_url: Some("i".to_string()),
        updated: 3u8,
        updated_timestamp: 30,
        approved: 4u8,
        approved_timestamp: 40,
        slug: None,
        color: None,
        license: "MIT".to_string(),
    };
    let parts = IndexParts {
        author: "a".to_string(),
        license: "MIT".to_string(),
        open_source: true,
        categories: strings(&["c"]),
        display_categories: vec![],
        gallery: vec![],
        featured_gallery: None,
    };
    let docs = version_documents(&p, &parts, &[62, 63]);
    assert_eq!(docs.len(), 2);
    assert_eq!(docs[0].version_id, "10");
    assert_eq!(docs[1].version_id, "11");
    assert_eq!(docs[1].project_id, "1");
    assert_eq!(docs[0].icon_url.as_deref(), Some("i"));
    assert_eq!(docs[0].date_modified, 3u8);
    assert_eq!(docs[0].categories, strings(&["c"]));
}

fn search_mod(id: i32) -> labrinth::search::SearchMod {
    labrinth::search::SearchMod {
        mod_id: id,
        author: "a".to_string(),
        title: "t".to_string(),
        description: "d".to_string(),
        keywords: vec![],
        versions: vec![],
        downloads: 0,
        page_url: String::new(),
        icon_url: String::new(),
        author_url: String::new(),
        date_created: String::new(),
        created: 0,
        date_modified: String::new(),
        updated: 0,
        latest_version: String::new(),
        empty: String::new(),
    }
}

#[test]
fn small_accessors() {
    assert_eq!(*search_mod(7).get_uid(), 7);
    let m = labrinth::search::models::SearchMod {
        mod_id: 9,
        author: String::new(),
        title: String::new(),
        description: String::new(),
        keywords: vec![],
        versions: vec![],
        downloads: 0,
        page_url: String::new(),
        icon_url: String::new(),
        author_url: String::new(),
        date_created: String::new(),
        created: 0,
        date_modified: String::new(),
        updated: 0,
        latest_version: String::new(),
        empty: String::new(),
    };
    assert_eq!(*m.get_uid(), 9);
    assert!(Role::Admin.is_admin() && Role::Admin.is_mod());
    assert!(Role::Moderator.is_mod() && !Role::Moderator.is_admin());
    assert!(!Role::Developer.is_mod());
    assert_eq!(labrinth::models::ids::parse_base62_chars(&['1', '0']), Ok(62));
    assert!(labrinth::models::ids::parse_base62_chars(&['-']).is_err());
    assert_eq!(
        labrinth::search::indexing::default_sortable_attributes(),
        vec!["downloads".to_string(), "follows".to_string(), "date_created".to_string(), "date_modified".to_string()]
    );
}

#[test]
fn game_versions_in_v2_shape() {
    let q = GameVersionQuery { type_: Some("release".to_string()), major: Some(true) };
    let f = game_version_filters(&q);
    assert_eq!(f.len(), 2);
    assert!(matches!(&f[0], MetadataFilter::Type(t) if t == "release"));
    assert!(matches!(f[1], MetadataFilter::Major(true)));
    assert!(game_version_filters(&GameVersionQuery { type_: None, major: None }).is_empty());
    let only_major = game_version_filters(&GameVersionQuery { type_: None, major: Some(false) });
    assert!(matches!(only_major[..], [MetadataFilter::Major(false)]));
    let v = game_version_from_v3(GameVersionValue {
        value: "1.20.1".to_string(),
        created: 5u8,
        metadata_type: None,
        metadata_major: Some(true),
    });
    assert_eq!((v.version.as_str(), v.version_type.as_str(), v.date, v.major), ("1.20.1", "", 5u8, true));
    let w = game_version_from_v3(GameVersionValue {
        value: "23w31a".to_string(),
        created: 6u8,
        metadata_type: Some("snapshot".to_string()),
        metadata_major: None,
    });
    assert_eq!((w.version_type.as_str(), w.major), ("snapshot", false));
}

#[test]
fn analytics_cors_origins() {
    assert!(matches!(analytics_origins(&strings(&["https://a.example", "*"])), AllowedOrigins::Any));
    match analytics_origins(&strings(&["https://a.example", "https://b.example"])) {
        AllowedOrigins::List(v) => assert_eq!(v, strings(&["https://a.example", "https://b.example"])),
        AllowedOrigins::Any => panic!("no wildcard was configured"),
    }
    assert!(matches!(analytics_origins(&vec![]), AllowedOrigins::List(v) if v.is_empty()));
}
