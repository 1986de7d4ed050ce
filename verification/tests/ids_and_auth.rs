use labrinth::models::ids::{parse_base62, to_base62, DecodingError, PatToken};
use labrinth::util::auth::{bearer_token_pat, check_is_moderator, credential_source, AuthenticationError, CredentialSource};
use labrinth::util::pat::{extract_pat_id_from_str, pat_expired};

#[test]
fn base62_writes_and_reads_back() {
    assert_eq!(to_base62(0), "");
    assert_eq!(to_base62(61), "z");
    assert_eq!(to_base62(62), "10");
    for n in [1u64, 61, 62, 3843, 123456789, u64::MAX] {
        assert_eq!(parse_base62(&to_base62(n)).unwrap(), n);
    }
}

#[test]
fn base62_reports_bad_digit_and_overflow() {
    assert_eq!(parse_base62("AA"), Ok(630));
    assert_eq!(parse_base62("a-b"), Err(DecodingError::InvalidBase62('-')));
    assert_eq!(parse_base62("zzzzzzzzzzzzzzzzzzzz"), Err(DecodingError::Overflow));
}

#[test]
fn pat_id_after_mod_prefix() {
    assert!(matches!(extract_pat_id_from_str("mod_10"), Ok(PatToken(62))));
    assert!(matches!(extract_pat_id_from_str("10"), Ok(PatToken(62))));
    assert!(matches!(
        extract_pat_id_from_str("mod_!"),
        Err(AuthenticationError::Decoding(DecodingError::InvalidBase62('!')))
    ));
}

#[test]
fn bearer_token_needs_prefix_and_pat() {
    assert_eq!(bearer_token_pat("Bearer mod_abc").ok(), Some("mod_abc".to_string()));
    assert!(matches!(bearer_token_pat("mod_abc"), Err(AuthenticationError::InvalidAuthMethod)));
    assert!(matches!(bearer_token_pat("Bearer ory_abcd"), Err(AuthenticationError::InvalidAuthMethod)));
}

#[test]
fn credentials_and_moderator_check() {
    assert!(matches!(credential_source(true, true), Ok(CredentialSource::Token)));
    assert!(matches!(credential_source(false, true), Ok(CredentialSource::Cookies)));
    assert!(matches!(credential_source(false, false), Err(AuthenticationError::InvalidCredentials)));
    assert!(check_is_moderator(true).is_ok());
    assert!(check_is_moderator(false).is_err());
}

#[test]
fn expired_tokens() {
    assert!(pat_expired(99, 100));
    assert!(!pat_expired(100, 100));
    assert!(!pat_expired(101, 100));
}
