use labrinth::models::v2::projects::LegacySideType;
use labrinth::models::v2::projects::LegacySideType::{Optional, Required, Unsupported};
use labrinth::routes::v2_reroute::{
    capitalize_first, convert_plugin_loader_facets_v3, convert_side_types_v2, convert_side_types_v3, part_dispositions,
    rebuild_multipart,
};
use labrinth::routes::v3::project_creation::CreateError;
use labrinth::util::multipart::{MultipartBuildSegment, MultipartBuildSegmentData};

#[test]
fn convert_types() {
    // Converting types from V2 to V3 and back should be idempotent- for certain pairs
    let lossy_pairs = [
        (Optional, Unsupported),
        (Unsupported, Optional),
        (Required, Optional),
        (Optional, Required),
        (Unsupported, Unsupported),
    ];

    for client_side in [Required, Optional, Unsupported] {
        for server_side in [Required, Optional, Unsupported] {
            if lossy_pairs.contains(&(client_side, server_side)) {
                continue;
            }
            let side_types = convert_side_types_v3(client_side, server_side);
            let (client_side2, server_side2) = convert_side_types_v2(&side_types, None);
            assert_eq!(client_side, client_side2);
            assert_eq!(server_side, server_side2);
        }
    }
}

#[test]
fn side_types_v3_fields_for_required_pair() {
    let f = convert_side_types_v3(Required, Required);
    assert_eq!(f.singleplayer, Some(true));
    assert_eq!(f.client_and_server, Some(true));
    assert_eq!(f.client_only, Some(false));
    assert_eq!(f.server_only, Some(false));
}

#[test]
fn side_types_lossy_pair_does_not_come_back() {
    let f = convert_side_types_v3(Optional, Unsupported);
    let back: (LegacySideType, LegacySideType) = convert_side_types_v2(&f, None);
    assert_ne!(back, (Optional, Unsupported));
}

#[test]
fn capitalize_first_letter() {
    assert_eq!(capitalize_first("forge"), "Forge");
    assert_eq!(capitalize_first(""), "");
    assert_eq!(capitalize_first("Fabric"), "Fabric");
}

#[test]
fn plugin_loader_facets_are_widened() {
    let facets = vec![vec!["project_type:mod".to_string()], vec!["versions:1.20".to_string()]];
    let out = convert_plugin_loader_facets_v3(facets);
    assert_eq!(out.len(), 2);
    assert_eq!(
        out[0],
        vec![
            "project_type:plugin".to_string(),
            "project_type:datapack".to_string(),
            "project_type:mod".to_string()
        ]
    );
    assert_eq!(out[1], vec!["versions:1.20".to_string()]);
    let mixed = vec![vec!["categories:fabric".to_string(), "project_type:mod".to_string()]];
    let out = convert_plugin_loader_facets_v3(mixed);
    assert_eq!(
        out,
        vec![vec![
            "categories:fabric".to_string(),
            "project_type:plugin".to_string(),
            "project_type:datapack".to_string(),
            "project_type:mod".to_string()
        ]]
    );
}

#[test]
fn multipart_rewrite_keeps_parts() {
    let json_part = MultipartBuildSegment {
        name: "data".to_string(),
        filename: None,
        content_type: Some("application/json".to_string()),
        data: MultipartBuildSegmentData::Binary(vec![]),
    };
    let file = MultipartBuildSegment {
        name: "file".to_string(),
        filename: Some("a.jar".to_string()),
        content_type: Some("application/java-archive".to_string()),
        data: MultipartBuildSegmentData::Binary(vec![1, 2]),
    };
    let others = vec![file];
    let dispositions = part_dispositions(&others);
    assert_eq!(dispositions.len(), 1);
    assert_eq!(dispositions[0].name, "file");
    assert_eq!(dispositions[0].filename, Some("a.jar".to_string()));
    let (boundary, body) = rebuild_multipart(Some(json_part), b"{\"a\":1}".to_vec(), others).unwrap();
    let mut expected = format!(
        "--{b}\r\nContent-Disposition: form-data; name=\"data\"\r\nContent-Type: application/json\r\n\r\n{{\"a\":1}}\r\n--{b}\r\nContent-Disposition: form-data; name=\"file\"; filename=\"a.jar\"\r\nContent-Type: application/java-archive\r\n\r\n",
        b = boundary
    )
    .into_bytes();
    expected.extend_from_slice(&[1, 2]);
    expected.extend_from_slice(format!("\r\n--{}--\r\n", boundary).as_bytes());
    assert_eq!(body, expected);
    assert!(matches!(rebuild_multipart(None, vec![], vec![]),
        Err(CreateError::InvalidInput(m)) if m == "No json segment found in multipart."));
}

#[test]
fn capitalize_first_in_bytes() {
    assert_eq!(capitalize_first("a").as_bytes(), b"A");
    assert_eq!(capitalize_first("1abc"), "1abc");
    assert_eq!(capitalize_first("éa"), "éa");
    assert_eq!(capitalize_first("éa").len(), "éa".len());
    assert_eq!(capitalize_first("quilt").as_bytes()[1..], b"quilt"[1..]);
}
