use gateway_router::error::PluginDisabledError;
use gateway_router::registry::{
    fetch_succeeded, log_fetch_failure, ConfigError, FetchStatus, PollState, RegistryConfig,
    FETCH_FAILURE_CODE,
};
use gateway_router::responses::build_error;

fn s(v: &str) -> Option<String> {
    Some(v.to_string())
}

#[test]
fn config_from_values() {
    let c = RegistryConfig::from_values(s("https://cdn.example"), s("k"), None).ok().unwrap();
    assert_eq!(c.endpoint, "https://cdn.example/");
    assert_eq!(c.key, "k");
    assert_eq!(c.poll_interval_secs, 10);
    let c = RegistryConfig::from_values(s("https://cdn.example/a"), s("k"), s("+5")).ok().unwrap();
    assert_eq!(c.poll_interval_secs, 5);
    let c = RegistryConfig::from_values(s("https://cdn.example/a"), s("k"), s("18446744073709551615")).ok().unwrap();
    assert_eq!(c.poll_interval_secs, u64::MAX);
}

#[test]
fn config_errors_in_order() {
    let e = |r: Result<RegistryConfig, ConfigError>| r.err().unwrap();
    assert_eq!(e(RegistryConfig::from_values(None, None, s("x"))), ConfigError::MissingEndpoint);
    assert_eq!(e(RegistryConfig::from_values(s("not a url"), None, None)), ConfigError::InvalidEndpoint);
    assert_eq!(e(RegistryConfig::from_values(s("https://cdn.example"), None, s("x"))), ConfigError::MissingKey);
    for bad in ["", "+", "-1", " 5", "5s", "18446744073709551616"] {
        assert_eq!(
            e(RegistryConfig::from_values(s("https://cdn.example"), s("k"), s(bad))),
            ConfigError::InvalidPollInterval
        );
    }
    assert_eq!(ConfigError::InvalidEndpoint.message(), "invalid CDN endpoint");
}

#[test]
fn etag_is_kept_for_next_poll() {
    let mut p = PollState::new();
    assert_eq!(p.etag(), None);
    assert!(p.on_response_head(200, Some(b"\"abc\"".to_vec())));
    assert_eq!(p.etag().cloned(), Some(b"\"abc\"".to_vec()));
    assert!(!p.on_response_head(304, Some(b"\"abc\"".to_vec())));
    assert!(p.on_response_head(200, Some(b"bad\x00tag".to_vec())));
    assert_eq!(p.etag(), None);
    assert!(p.on_response_head(500, None));
    assert_eq!(p.etag(), None);
}

#[test]
fn only_changed_schemas_are_handed_on() {
    let mut p = PollState::new();
    assert!(p.on_schema(&"type Query { a: Int }".to_string()));
    assert!(!p.on_schema(&"type Query { a: Int }".to_string()));
    assert!(p.on_schema(&"type Query { b: Int }".to_string()));
    assert!(p.on_schema(&"type Query { a: Int }".to_string()));
}

#[test]
fn schema_digest_is_sha256() {
    let mut p = PollState::new();
    p.on_schema(&"hello".to_string());
    let expected: Vec<u8> = vec![
        44, 242, 77, 186, 95, 176, 163, 14, 38, 232, 59, 42, 197, 185, 226, 158, 27, 22, 30, 92, 31,
        167, 66, 94, 115, 4, 51, 98, 147, 139, 152, 36,
    ];
    assert_eq!(p.last_digest().cloned(), Some(expected.clone()));
    assert!(!p.on_digest(expected));
    assert!(p.on_digest(vec![1, 2, 3]));
}

#[test]
fn fetch_records() {
    let ok = fetch_succeeded();
    assert_eq!(ok.status, FetchStatus::Success);
    assert!(ok.error.is_none());
    let failed = log_fetch_failure("timed out".to_string());
    assert_eq!(failed.status, FetchStatus::Failure);
    assert_eq!(failed.error, Some((FETCH_FAILURE_CODE, "timed out".to_string())));
    assert_eq!(FETCH_FAILURE_CODE, "HIVE_REGISTRY_FETCH_FAILURE");
}

#[test]
fn graphql_error_codes() {
    assert_eq!(build_error("m".to_string(), 400).extension_code, "BAD_REQUEST");
    assert_eq!(build_error("m".to_string(), 422).extension_code, "BAD_REQUEST");
    assert_eq!(build_error("m".to_string(), 500).extension_code, "INTERNAL_ERROR");
    assert_eq!(build_error("m".to_string(), 404).extension_code, "UNKNOWN");
    assert_eq!(build_error("bad input".to_string(), 400).message, "bad input");
}

#[test]
fn plugin_disabled_message() {
    assert_eq!(PluginDisabledError.message(), "plugin registered, but explicitly disabled");
}
