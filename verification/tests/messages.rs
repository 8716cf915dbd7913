use plex_rs::config::ClientConfig;
use plex_rs::error::Error;
use plex_rs::ids::{ClientIdentifier, MachineIdentifier, PlexToken};
use plex_rs::media::items::{item_kind, parse_rating_key};
use plex_rs::myplex::webhooks::without_webhook;

fn err_of<T>(r: Result<T, Error>) -> Error {
    match r {
        Ok(_) => panic!("expected an error"),
        Err(e) => e,
    }
}

fn config_message(e: Error) -> String {
    match e {
        Error::Config(m) => m,
        other => panic!("expected a configuration error, got {other:?}"),
    }
}

#[test]
fn rating_key_message_names_field_and_value() {
    let e = parse_rating_key("abc", "parentRatingKey").unwrap_err();
    assert_eq!(config_message(e), "metadata.parentRatingKey not numeric: \"abc\"");
}

#[test]
fn item_kind_messages() {
    assert_eq!(
        config_message(item_kind(None).unwrap_err()),
        "metadata element missing wire `type` discriminator"
    );
    assert_eq!(config_message(item_kind(Some("widget")).unwrap_err()), "unknown metadata type \"widget\"");
}

#[test]
fn identifier_messages() {
    assert_eq!(config_message(ClientIdentifier::new("").unwrap_err()), "client identifier must not be empty");
    assert_eq!(config_message(MachineIdentifier::new("").unwrap_err()), "machine identifier must not be empty");
    assert_eq!(config_message(err_of(PlexToken::new(""))), "token must not be empty");
}

#[test]
fn config_build_reports_first_broken_rule() {
    let cid = ClientIdentifier::new("c").unwrap();
    let e = err_of(ClientConfig::builder(cid.clone(), "linux").max_retries(1000).build());
    assert_eq!(config_message(e), "max_retries 1000 exceeds hard cap 8");
    let e = err_of(ClientConfig::builder(cid, "linux").request_timeout(0).connect_timeout(0).build());
    assert_eq!(config_message(e), "request_timeout must be > 0");
}

#[test]
fn missing_webhook_message_names_url() {
    match without_webhook(vec!["https://a".to_owned()], "https://b") {
        Err(Error::NotFound { resource }) => assert_eq!(resource, "webhook https://b"),
        other => panic!("unexpected {other:?}"),
    }
}
