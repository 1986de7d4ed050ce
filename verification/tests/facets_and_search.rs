use labrinth::models::ids::ProjectId;
use labrinth::routes::v2::projects::{parse_facet, v3_facet};
use labrinth::search::{checked_search_params, search_params, SearchRequest};
use labrinth::util::keys::{KeyError, SigningKeyBody};
use labrinth::util::report::censor_check;

#[test]
fn facets_parse_and_rename() {
    assert_eq!(
        parse_facet("versions:1.20"),
        Some(("versions".to_string(), ":".to_string(), "1.20".to_string()))
    );
    assert_eq!(
        parse_facet("downloads >= 100"),
        Some(("downloads".to_string(), ">=".to_string(), " 100".to_string()))
    );
    assert_eq!(parse_facet("nothing"), None);
    assert_eq!(v3_facet("versions:1.20"), "game_versions:1.20");
    assert_eq!(v3_facet("project_type:mod"), "project_types:mod");
    assert_eq!(v3_facet("title=x"), "name=x");
    assert_eq!(v3_facet("plain"), "plain");
}

fn request() -> SearchRequest {
    SearchRequest { query: None, filters: None, version: None, offset: None, index: None }
}

#[test]
fn search_parameters() {
    let p = search_params(&request());
    assert_eq!(p.query, "{}{}{}");
    assert_eq!(p.filters, None);
    assert_eq!((p.limit, p.offset), (10, 0));
    assert_eq!(p.index_name, "relevance_mods");
    let mut r = request();
    r.filters = Some("a".to_string());
    r.version = Some("b".to_string());
    r.offset = Some("20".to_string());
    r.index = Some("downloads".to_string());
    let p = search_params(&r);
    assert_eq!(p.filters.as_deref(), Some("(a) AND (b)"));
    assert_eq!(p.offset, 20);
    assert_eq!(p.index_name, "downloads_mods");
    let mut bad = request();
    bad.offset = Some("x".to_string());
    assert!(checked_search_params(&bad).is_none());
}

#[test]
fn censored_text_is_reported() {
    assert!(censor_check("hello there", Some(ProjectId(1)), None, None, "r".to_string()).is_none());
    let report = censor_check("fuck", Some(ProjectId(1)), None, None, "r".to_string()).unwrap();
    assert_eq!(report.project_id, Some(ProjectId(1)));
    assert_eq!(report.body, "r");
}

#[test]
fn signing_keys_of_unknown_type() {
    assert!(matches!(SigningKeyBody::parse("gpg", "x"), Err(KeyError::UnknownKeyType(t)) if t == "gpg"));
    assert!(matches!(SigningKeyBody::parse("openssh", "not a key"), Err(KeyError::SshKey(_))));
    assert!(matches!(
        SigningKeyBody::parse("pgp", "-----BEGIN PGP PUBLIC KEY BLOCK-----\n\n-----END PGP PUBLIC KEY BLOCK-----\n"),
        Err(KeyError::Pgp(_))
    ));
    let key = SigningKeyBody::parse(
        "openssh",
        "ssh-ed25519 AAAAC3NzaC1lZDI1NTE5AAAAILM+rvN+ot98qgEN796jTiQfZfG1KaT0PtFDJ/XFSqti user@example.com",
    );
    let mut key = match key {
        Ok(k) => k,
        Err(_) => panic!("valid key"),
    };
    assert_eq!(key.type_str(), "openssh");
    key.scrub();
    let body = match key.to_body() {
        Ok(b) => b,
        Err(_) => panic!("writes back"),
    };
    assert_eq!(body, "ssh-ed25519 AAAAC3NzaC1lZDI1NTE5AAAAILM+rvN+ot98qgEN796jTiQfZfG1KaT0PtFDJ/XFSqti");
}

#[test]
fn search_offsets_read_as_decimal_numbers() {
    let with_offset = |o: &str| SearchRequest { offset: Some(o.to_string()), ..request() };
    assert_eq!(checked_search_params(&with_offset("20")).map(|p| p.offset), Some(20));
    assert_eq!(checked_search_params(&with_offset("+7")).map(|p| p.offset), Some(7));
    assert_eq!(checked_search_params(&with_offset("007")).map(|p| p.offset), Some(7));
    assert!(checked_search_params(&with_offset("")).is_none());
    assert!(checked_search_params(&with_offset("+")).is_none());
    assert!(checked_search_params(&with_offset("-1")).is_none());
    assert!(checked_search_params(&with_offset("1a")).is_none());
    assert!(checked_search_params(&with_offset("99999999999999999999999")).is_none());
}

#[test]
fn parsed_facets_split_the_text() {
    // The key part holds no operator and loses its spaces; a lone `<` keeps
    // what follows as the value.
    assert_eq!(
        parse_facet("game versions<1.20"),
        Some(("gameversions".to_string(), "<".to_string(), "1.20".to_string()))
    );
    assert_eq!(parse_facet("a=b:c"), Some(("a".to_string(), "=".to_string(), "b:c".to_string())));
    assert_eq!(parse_facet(">="), Some(("".to_string(), ">=".to_string(), "".to_string())));
    assert_eq!(parse_facet("no operator here"), None);
}

#[test]
fn dependency_and_thread_message_bodies() {
    let info = labrinth::routes::v2::projects::DependencyInfo { projects: vec!["p"], versions: vec![1u64, 2] };
    assert_eq!(info.projects.len(), 1);
    assert_eq!(info.versions, vec![1, 2]);
    let message = labrinth::routes::v2::threads::NewThreadMessage { body: "hello".to_string() };
    assert_eq!(message.body, "hello");
}
