use plex_rs::error::{check_status, trim_body, Error, MAX_BODY_LEN};

#[test]
fn status_500_maps_to_api_variant_through_helper() {
    let e = Error::from_status(500, "boom", "/p");
    assert!(matches!(e, Error::Api { .. }));
    assert!(e.is_retryable());
}

#[test]
fn from_status_maps_401_to_unauthorized() {
    let e = Error::from_status(401, "no token", "/identity");
    assert!(matches!(e, Error::Unauthorized));
}

#[test]
fn from_status_maps_403_to_forbidden() {
    let e = Error::from_status(403, "nope", "/identity");
    assert!(matches!(e, Error::Forbidden(ref msg) if msg == "nope"));
}

#[test]
fn from_status_maps_404_to_not_found_with_path() {
    let e = Error::from_status(404, "missing", "/library/sections/99");
    match e {
        Error::NotFound { resource } => assert_eq!(resource, "/library/sections/99"),
        other => panic!("expected NotFound, got {other:?}"),
    }
}

#[test]
fn from_status_maps_other_codes_to_api_with_truncated_body() {
    let huge = "x".repeat(2 * MAX_BODY_LEN);
    let e = Error::from_status(500, &huge, "/");
    match e {
        Error::Api { status, message } => {
            assert_eq!(status, 500);
            assert!(message.len() <= MAX_BODY_LEN + 4);
            assert!(message.ends_with('…'));
        }
        other => panic!("expected Api, got {other:?}"),
    }
}

#[test]
fn from_status_does_not_truncate_short_body() {
    let body = "short";
    let e = Error::from_status(503, body, "/");
    match e {
        Error::Api { message, .. } => assert_eq!(message, body),
        other => panic!("expected Api, got {other:?}"),
    }
}

#[test]
fn is_retryable_timeout() {
    assert!(Error::Timeout(1_000_000_000).is_retryable());
}

#[test]
fn is_retryable_for_5xx_and_429() {
    for code in [429u16, 500, 502, 503, 504, 408, 425] {
        let e = Error::Api { status: code, message: String::new() };
        assert!(e.is_retryable(), "{code} should be retryable");
    }
}

#[test]
fn is_retryable_skips_client_errors() {
    for code in [400u16, 401, 403, 404, 422] {
        let e = Error::Api { status: code, message: String::new() };
        assert!(!e.is_retryable(), "{code} must not be retryable");
    }
    assert!(!Error::Unauthorized.is_retryable());
    assert!(!Error::TwoFactorRequired.is_retryable());
}

#[test]
fn transport_failures_retry_only_on_timeout_or_connect() {
    let t = |timeout: bool, connect: bool| Error::Transport { message: "x".to_owned(), timeout, connect };
    assert!(t(true, false).is_retryable());
    assert!(t(false, true).is_retryable());
    assert!(!t(false, false).is_retryable());
}

#[test]
fn display_format_is_stable() {
    let e = Error::NotFound { resource: "/library".into() };
    assert_eq!(e.to_string(), "not found: /library");
}

#[test]
fn display_of_each_variant() {
    assert_eq!(
        Error::Api { status: 500, message: "boom".into() }.to_string(),
        "plex api error 500 Internal Server Error: boom"
    );
    assert_eq!(
        Error::Api { status: 599, message: "m".into() }.to_string(),
        "plex api error 599 <unknown status code>: m"
    );
    assert_eq!(Error::Unauthorized.to_string(), "unauthorized: missing or invalid X-Plex-Token");
    assert_eq!(Error::Forbidden("no".into()).to_string(), "forbidden: no");
    assert_eq!(Error::Timeout(1_500_000_000).to_string(), "timeout after 1.5s");
    assert_eq!(Error::TwoFactorRequired.to_string(), "two-factor authentication required");
    assert_eq!(Error::Config("bad".into()).to_string(), "invalid configuration: bad");
}

#[test]
fn truncation_snaps_to_a_character_boundary() {
    // 1023 ASCII bytes then a 2-byte character straddling the limit.
    let body = format!("{}é{}", "a".repeat(MAX_BODY_LEN - 1), "b".repeat(10));
    let m = trim_body(&body);
    assert_eq!(m, format!("{}…", "a".repeat(MAX_BODY_LEN - 1)));
    let exact = "z".repeat(MAX_BODY_LEN);
    assert_eq!(trim_body(&exact), exact);
}

#[test]
fn check_status_accepts_only_2xx() {
    assert!(check_status(200, "", "/").is_ok());
    assert!(check_status(299, "", "/").is_ok());
    assert!(matches!(check_status(199, "", "/"), Err(Error::Api { status: 199, .. })));
    assert!(matches!(check_status(300, "", "/"), Err(Error::Api { status: 300, .. })));
    assert!(matches!(check_status(401, "", "/"), Err(Error::Unauthorized)));
}
