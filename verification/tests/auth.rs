use kroki_rs::config::{ApiKeyEntry, AuthConfig};
use kroki_rs::server::auth::{admin_credentials_valid, check_admin, check_api_key, find_api_key_entry, Gate};

fn keyed_config(enabled: bool) -> AuthConfig {
    AuthConfig {
        enabled,
        api_keys: vec![ApiKeyEntry {
            key: "test-key".to_string(),
            label: "test".to_string(),
            rate_limit: Some(10),
        }],
        header_name: "x-api-key".to_string(),
        admin_password_hash: None,
    }
}

#[test]
fn test_find_api_key_entry_found() {
    let config = AuthConfig {
        enabled: true,
        api_keys: vec![ApiKeyEntry {
            key: "test-key".to_string(),
            label: "test".to_string(),
            rate_limit: Some(10),
        }],
        header_name: "x-api-key".to_string(),
        admin_password_hash: None,
    };
    let entry = find_api_key_entry(&config, "test-key");
    assert!(entry.is_some());
    assert_eq!(entry.unwrap().label, "test");
}

#[test]
fn test_find_api_key_entry_not_found() {
    let config = AuthConfig {
        enabled: true,
        api_keys: vec![ApiKeyEntry {
            key: "test-key".to_string(),
            label: "test".to_string(),
            rate_limit: None,
        }],
        header_name: "x-api-key".to_string(),
        admin_password_hash: None,
    };
    assert!(find_api_key_entry(&config, "wrong-key").is_none());
}

#[test]
fn test_find_api_key_entry_empty_keys() {
    let config = AuthConfig::default();
    assert!(find_api_key_entry(&config, "any-key").is_none());
}

#[test]
fn find_api_key_entry_returns_first_match() {
    let mut config = keyed_config(true);
    config.api_keys.push(ApiKeyEntry {
        key: "test-key".to_string(),
        label: "second".to_string(),
        rate_limit: None,
    });
    assert_eq!(find_api_key_entry(&config, "test-key").unwrap().label, "test");
}

#[test]
fn api_key_disabled_passes_everything() {
    let config = keyed_config(false);
    assert!(matches!(check_api_key(&config, None), Gate::Pass));
    assert!(matches!(check_api_key(&config, Some("nope")), Gate::Pass));
}

#[test]
fn api_key_valid_passes() {
    let config = keyed_config(true);
    assert!(matches!(check_api_key(&config, Some("test-key")), Gate::Pass));
}

#[test]
fn api_key_invalid_is_rejected() {
    let config = keyed_config(true);
    match check_api_key(&config, Some("wrong")) {
        Gate::Reject(r) => {
            assert_eq!(r.status, 401);
            assert_eq!(r.error, "unauthorized");
            assert_eq!(r.message, "Invalid API key");
        }
        Gate::Pass => panic!("an unknown key must be rejected"),
    }
}

#[test]
fn api_key_missing_is_rejected_naming_the_header() {
    let config = keyed_config(true);
    match check_api_key(&config, None) {
        Gate::Reject(r) => {
            assert_eq!(r.status, 401);
            assert_eq!(r.error, "unauthorized");
            assert_eq!(r.message, "Missing API key. Provide it via the 'x-api-key' header.");
        }
        Gate::Pass => panic!("a missing key must be rejected"),
    }
}

#[test]
fn admin_password_round_trip() {
    let hash = bcrypt::hash("s3cret", 4).unwrap();
    // "admin:s3cret" in standard Base64.
    let header = "Basic YWRtaW46czNjcmV0";
    assert!(admin_credentials_valid(header, &hash));
    // "admin:wrong"
    assert!(!admin_credentials_valid("Basic YWRtaW46d3Jvbmc=", &hash));
    // Not Basic, not Base64, no colon.
    assert!(!admin_credentials_valid("Bearer YWRtaW46czNjcmV0", &hash));
    assert!(!admin_credentials_valid("Basic !!!", &hash));
    assert!(!admin_credentials_valid("Basic YWRtaW4=", &hash));
}

#[test]
fn admin_password_after_first_colon() {
    let hash = bcrypt::hash("pa:ss", 4).unwrap();
    // "user:pa:ss"
    assert!(admin_credentials_valid("Basic dXNlcjpwYTpzcw==", &hash));
}

#[test]
fn admin_gate() {
    let hash = bcrypt::hash("s3cret", 4).unwrap();
    let mut config = keyed_config(true);
    // No hash configured: the admin endpoints are open.
    assert!(matches!(check_admin(&config, None), Gate::Pass));
    config.admin_password_hash = Some(hash);
    assert!(matches!(check_admin(&config, Some("Basic YWRtaW46czNjcmV0")), Gate::Pass));
    match check_admin(&config, None) {
        Gate::Reject(r) => {
            assert_eq!(r.status, 401);
            assert_eq!(r.error, "unauthorized");
            assert_eq!(r.message, "Admin authentication required");
        }
        Gate::Pass => panic!("missing credentials must be rejected"),
    }
    config.enabled = false;
    assert!(matches!(check_admin(&config, None), Gate::Pass));
}

#[test]
fn find_api_key_entry_with_auth_disabled() {
    let config = keyed_config(false);
    assert!(find_api_key_entry(&config, "test-key").is_none());
}
