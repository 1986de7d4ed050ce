use labrinth::models::ids::UserId;
use labrinth::models::pats::Scopes;
use labrinth::routes::v3::minecraft::profiles::{
    new_profile_loader, profile_loader,
    check_override_data_part, check_override_permission, check_profile_download, check_profile_owner,
    check_share_accept, custom_file_of_url, override_content_type, override_install_path, override_storage_path,
    token_opens, MultipartFile, download_token_expiry, download_token_plan, new_profile_game_version,
    override_download_url, profile_download_body, profile_game_version, DownloadToken, GameVersionRow,
    check_link_profile, check_share_owner, new_share_link_identifier, share_link_expiry, stored_override,
};
use labrinth::models::ids::VersionId;
use labrinth::routes::v3::oauth_clients::{
    apply_client_edit, check_client_edit, redirects_to_add, redirects_to_remove, EditableClient, OAuthClientEdit,
};
use labrinth::routes::v3::payouts::{check_webhook_verification, paypal_headers, plan_payout_cancel, CancelPlan, PayoutMethod};
use labrinth::routes::v3::project_creation::CreateError;
use labrinth::routes::ApiError;

#[test]
fn share_link_rules() {
    let users = [UserId(1), UserId(2)];
    assert!(matches!(check_share_accept(UserId(1), UserId(1), &users, 5), Err(ApiError::InvalidInput(m)) if m == "You cannot accept your own share link"));
    assert!(matches!(check_share_accept(UserId(1), UserId(2), &users, 5), Err(ApiError::InvalidInput(m)) if m == "You are already on this profile's team"));
    assert!(matches!(check_share_accept(UserId(1), UserId(3), &users, 2), Err(ApiError::InvalidInput(m)) if m == "This profile has too many users"));
    assert!(check_share_accept(UserId(1), UserId(3), &users, 3).is_ok());
    assert!(check_profile_download(UserId(2), &users).is_ok());
    assert!(matches!(check_profile_download(UserId(3), &users), Err(ApiError::CustomAuthentication(m)) if m == "You are not on this profile's team"));
    assert!(check_profile_owner(UserId(1), UserId(1)).is_ok());
    assert!(check_profile_owner(UserId(1), UserId(2)).is_err());
}

#[test]
fn download_token_names_custom_files() {
    assert_eq!(custom_file_of_url("https://cdn.x/custom_files/abc", "https://cdn.x").as_deref(), Some("abc"));
    assert_eq!(
        custom_file_of_url("https://cdn.x/custom_files/abc/https://cdn.x/custom_files/def", "https://cdn.x").as_deref(),
        Some("abc/")
    );
    assert_eq!(custom_file_of_url("https://other/abc", "https://cdn.x"), None);
    let overrides = vec!["abc".to_string()];
    assert!(token_opens(10, 5, "https://cdn.x/custom_files/abc", "https://cdn.x", &overrides));
    assert!(!token_opens(5, 5, "https://cdn.x/custom_files/abc", "https://cdn.x", &overrides));
    assert!(!token_opens(10, 5, "https://cdn.x/custom_files/zzz", "https://cdn.x", &overrides));
}

#[test]
fn profile_override_uploads() {
    assert!(check_override_permission(true, UserId(1), UserId(2)).is_ok());
    assert!(matches!(check_override_permission(false, UserId(1), UserId(2)), Err(CreateError::CustomAuthenticationError(m)) if m == "You don't have permission to add overrides."));
    assert!(check_override_data_part(Some(Some("data"))).is_ok());
    assert!(matches!(check_override_data_part(None), Err(CreateError::InvalidInput(m)) if m == "Upload must have a data field"));
    let files = vec![
        MultipartFile { file_name: "a".to_string(), install_path: "mods/a.jar".to_string() },
        MultipartFile { file_name: "a".to_string(), install_path: "mods/other.jar".to_string() },
    ];
    assert_eq!(override_install_path(&files, Some("a")).ok().as_deref(), Some("mods/a.jar"));
    assert!(matches!(override_install_path(&files, Some("b")), Err(CreateError::InvalidInput(m)) if m == "No matching file name in `data` for file 'b'"));
    assert_eq!(override_content_type(None), "application/octet-stream");
    assert_eq!(override_content_type(Some("image/png")), "image/png");
    assert_eq!(override_storage_path("deadbeef"), "custom_files/deadbeef");
}

#[test]
fn oauth_client_edits() {
    let none = OAuthClientEdit { name: None, icon_url: None, max_scopes: None, redirect_uris: None, url: None, description: None };
    assert!(matches!(check_client_edit(&none), Err(ApiError::InvalidInput(m)) if m == "No changes provided"));
    let edit = OAuthClientEdit {
        name: Some("new".to_string()),
        icon_url: Some(None),
        max_scopes: None,
        redirect_uris: None,
        url: None,
        description: Some(Some("d".to_string())),
    };
    assert!(check_client_edit(&edit).is_ok());
    let client = EditableClient {
        name: "old".to_string(),
        icon_url: Some("i".to_string()),
        max_scopes: Scopes(3),
        url: Some("u".to_string()),
        description: None,
    };
    let c = apply_client_edit(client, edit);
    assert_eq!(c.name, "new");
    assert_eq!(c.icon_url, None);
    assert_eq!(c.max_scopes, Scopes(3));
    assert_eq!(c.url.as_deref(), Some("u"));
    assert_eq!(c.description.as_deref(), Some("d"));
}

#[test]
fn oauth_redirect_changes() {
    let current = vec!["a".to_string(), "b".to_string()];
    let updated = vec!["b".to_string(), "c".to_string(), "c".to_string(), "d".to_string()];
    assert_eq!(redirects_to_add(&updated, &current), vec!["c".to_string(), "d".to_string()]);
    assert_eq!(redirects_to_remove(&current, &updated), vec![0]);
}

#[test]
fn paypal_webhook_checks() {
    let h = paypal_headers(Some("a"), Some("c"), Some("i"), Some("s"), Some("t")).ok().unwrap();
    assert_eq!(h.transmission_sig, "s");
    assert!(matches!(paypal_headers(Some("a"), None, None, Some("s"), Some("t")), Err(ApiError::InvalidInput(m)) if m == "missing cert url"));
    assert!(check_webhook_verification("SUCCESS").is_ok());
    assert!(matches!(check_webhook_verification("FAILURE"), Err(ApiError::InvalidInput(m)) if m == "Invalid webhook signature"));
}

#[test]
fn payout_cancellation() {
    assert!(matches!(plan_payout_cancel(UserId(1), UserId(2), false, Some("p"), Some(PayoutMethod::PayPal), false), Ok(CancelPlan::NotFound)));
    assert!(matches!(plan_payout_cancel(UserId(1), UserId(1), false, Some("p1"), Some(PayoutMethod::Venmo), false), Ok(CancelPlan::CancelAtPaypal(p)) if p == "payments/payouts-item/p1/cancel"));
    assert!(matches!(plan_payout_cancel(UserId(1), UserId(1), false, Some("p"), Some(PayoutMethod::Tremendous), false), Ok(CancelPlan::Nothing)));
    assert!(matches!(plan_payout_cancel(UserId(1), UserId(1), false, Some("p"), Some(PayoutMethod::PayPal), true), Err(ApiError::InvalidInput(m)) if m == "Payout cannot be cancelled!"));
    assert!(plan_payout_cancel(UserId(1), UserId(2), true, None, None, false).is_err());
}

#[test]
fn download_answer_and_token_check_agree() {
    let overrides = vec![
        ("abc123".to_string(), "mods/a.jar".to_string()),
        ("def456".to_string(), "config/b.toml".to_string()),
    ];
    let body = profile_download_body("tok".to_string(), vec![VersionId(9)], &overrides, "https://cdn.example.com");
    assert_eq!(body.auth_token, "tok");
    assert_eq!(body.version_ids.len(), 1);
    assert_eq!(body.override_cdns[0], ("https://cdn.example.com/custom_files/abc123".to_string(), "mods/a.jar".to_string()));
    assert_eq!(body.override_cdns[1].0, override_download_url("https://cdn.example.com", "def456"));
    let hashes = vec!["abc123".to_string(), "def456".to_string()];
    for (url, _) in &body.override_cdns {
        assert!(token_opens(100, 50, url, "https://cdn.example.com", &hashes));
        assert!(!token_opens(100, 100, url, "https://cdn.example.com", &hashes));
    }
}

#[test]
fn download_token_plans() {
    assert_eq!(download_token_plan(None, 10), DownloadToken::Create);
    assert_eq!(download_token_plan(Some(20), 10), DownloadToken::Reuse);
    assert_eq!(download_token_plan(Some(10), 10), DownloadToken::Replace);
    assert_eq!(download_token_expiry(1000), 1300);
}

#[test]
fn profile_game_versions() {
    let list = vec![
        GameVersionRow { id: 1, version: "1.20.1".to_string() },
        GameVersionRow { id: 2, version: "1.19.4".to_string() },
        GameVersionRow { id: 3, version: "1.20.1".to_string() },
    ];
    assert!(matches!(profile_game_version(&list, "1.20.1"), Ok(1)));
    assert!(matches!(profile_game_version(&list, "1.19.4"), Ok(2)));
    assert!(matches!(profile_game_version(&list, "b1.7"), Err(ApiError::InvalidInput(m)) if m == "Invalid Minecraft game version"));
    assert!(matches!(new_profile_game_version(&list, "nope"), Err(CreateError::InvalidInput(m)) if m == "Invalid Minecraft game version"));
}

#[test]
fn secrets_are_alphanumeric() {
    let s = labrinth::routes::v3::oauth_clients::generate_oauth_client_secret();
    assert_eq!(s.chars().count(), 32);
    assert!(s.chars().all(|c| c.is_ascii_alphanumeric()));
    let t = labrinth::routes::v3::minecraft::profiles::new_download_token();
    assert_eq!(t.len(), 32);
    assert!(t.chars().all(|c| c.is_ascii_alphanumeric()));
    assert_ne!(s, t);
}

#[test]
fn share_links() {
    let id = new_share_link_identifier();
    assert_eq!(id.len(), 8);
    assert!(id.chars().all(|c| c.is_ascii_alphanumeric()));
    assert_eq!(share_link_expiry(0), 604800);
    assert!(check_share_owner(UserId(1), UserId(1)).is_ok());
    assert!(matches!(check_share_owner(UserId(1), UserId(2)), Err(ApiError::NotFound)));
    assert!(check_link_profile(5, 5).is_ok());
    assert!(matches!(check_link_profile(5, 6), Err(ApiError::NotFound)));
}

#[test]
fn uploaded_profile_files() {
    let (hash, path) = stored_override(b"hello");
    assert_eq!(hash, "aaf4c61ddcc5e8a2dabede0f3b482cd9aea9434d");
    assert_eq!(path, "custom_files/aaf4c61ddcc5e8a2dabede0f3b482cd9aea9434d");
}

#[test]
fn profile_loaders_must_be_known() {
    assert!(matches!(profile_loader(Some(4)), Ok(4)));
    assert!(matches!(profile_loader(None), Err(labrinth::routes::ApiError::InvalidInput(m)) if m == "Invalid loader"));
    assert!(matches!(new_profile_loader(Some(4)), Ok(4)));
    assert!(matches!(new_profile_loader(None),
        Err(labrinth::routes::v3::project_creation::CreateError::InvalidInput(m)) if m == "Invalid loader"));
}
