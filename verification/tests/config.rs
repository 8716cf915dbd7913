use plex_rs::config::{
    ClientConfig, DEFAULT_CONNECT_TIMEOUT, DEFAULT_MAX_RETRIES, DEFAULT_REQUEST_TIMEOUT,
    DEFAULT_RETRY_BASE_DELAY, DEFAULT_RETRY_MAX_DELAY, RETRY_HARD_CAP,
};
use plex_rs::error::Error;
use plex_rs::ids::{ClientIdentifier, PlexToken};

const SEC: u64 = 1_000_000_000;

fn cid() -> ClientIdentifier {
    ClientIdentifier::new("test-id").unwrap()
}

#[test]
fn defaults_are_sane() {
    let cfg = ClientConfig::builder(cid(), "linux").build().unwrap();
    assert_eq!(cfg.request_timeout, DEFAULT_REQUEST_TIMEOUT);
    assert_eq!(cfg.connect_timeout, DEFAULT_CONNECT_TIMEOUT);
    assert_eq!(cfg.max_retries, DEFAULT_MAX_RETRIES);
    assert_eq!(cfg.retry_base_delay, DEFAULT_RETRY_BASE_DELAY);
    assert_eq!(cfg.retry_max_delay, DEFAULT_RETRY_MAX_DELAY);
    assert!(cfg.token.is_none());
    assert!(cfg.user_agent.is_none());
}

#[test]
fn token_can_be_attached() {
    let token = PlexToken::new("secret").unwrap();
    let cfg = ClientConfig::builder(cid(), "linux").token(Some(token)).build().unwrap();
    assert_eq!(cfg.token.as_ref().unwrap().expose(), "secret");
}

#[test]
fn identity_setters_compose() {
    let cfg = ClientConfig::builder(cid(), "linux")
        .map_identity(|id| id.with_product("custom").with_device("Mac"))
        .build()
        .unwrap();
    assert_eq!(cfg.identity.product, "custom");
    assert_eq!(cfg.identity.device, "Mac");
}

#[test]
fn timeout_setters_apply() {
    let cfg = ClientConfig::builder(cid(), "linux")
        .request_timeout(60 * SEC)
        .connect_timeout(5 * SEC)
        .build()
        .unwrap();
    assert_eq!(cfg.request_timeout, 60 * SEC);
    assert_eq!(cfg.connect_timeout, 5 * SEC);
}

#[test]
fn rejects_zero_request_timeout() {
    let r = ClientConfig::builder(cid(), "linux").request_timeout(0).build();
    assert!(matches!(r, Err(Error::Config(_))));
}

#[test]
fn rejects_zero_connect_timeout() {
    let r = ClientConfig::builder(cid(), "linux").connect_timeout(0).build();
    assert!(matches!(r, Err(Error::Config(_))));
}

#[test]
fn rejects_excess_retries() {
    let r = ClientConfig::builder(cid(), "linux").max_retries(RETRY_HARD_CAP + 1).build();
    assert!(matches!(r, Err(Error::Config(_))));
    let ok = ClientConfig::builder(cid(), "linux").max_retries(RETRY_HARD_CAP).build();
    assert!(ok.is_ok());
}

#[test]
fn rejects_inverted_retry_window() {
    let r = ClientConfig::builder(cid(), "linux")
        .retry_base_delay(5 * SEC)
        .retry_max_delay(SEC)
        .build();
    assert!(matches!(r, Err(Error::Config(_))));
}

#[test]
fn user_agent_override_round_trips() {
    let cfg = ClientConfig::builder(cid(), "linux").user_agent("MyApp/1.0").build().unwrap();
    assert_eq!(cfg.effective_user_agent(), "MyApp/1.0");
}

#[test]
fn effective_user_agent_default_format() {
    let cfg = ClientConfig::builder(cid(), "linux")
        .map_identity(|i| i.with_product("prod").with_version("9.9").with_platform("test-os"))
        .build()
        .unwrap();
    assert_eq!(cfg.effective_user_agent(), "prod/9.9 (test-os)");
}

#[test]
fn builder_uses_the_given_platform_and_crate_version() {
    let cfg = ClientConfig::builder(cid(), "plan9").build().unwrap();
    assert_eq!(cfg.identity.platform, "plan9");
    assert_eq!(cfg.identity.version, plex_rs::VERSION);
    assert_eq!(cfg.effective_user_agent(), format!("plex-rs/{} (plan9)", plex_rs::VERSION));
}
