use plex_rs::error::Error;
use plex_rs::headers::{
    PlexIdentity, ACCEPT_JSON, DEFAULT_DEVICE, DEFAULT_PRODUCT, DEFAULT_PROVIDES, HEADER_ACCEPT,
    HEADER_CLIENT_IDENTIFIER, HEADER_DEVICE, HEADER_DEVICE_NAME, HEADER_PLATFORM,
    HEADER_PLATFORM_VERSION, HEADER_PRODUCT, HEADER_PROVIDES, HEADER_SYNC_VERSION, HEADER_TOKEN,
    HEADER_VERSION, SYNC_VERSION,
};
use plex_rs::ids::{ClientIdentifier, PlexToken};

fn identity() -> PlexIdentity {
    PlexIdentity::new(ClientIdentifier::new("test-client-id").ok().unwrap(), "linux")
}

fn get<'a>(h: &'a [(String, String)], name: &str) -> Option<&'a str> {
    h.iter().find(|(k, _)| k == name).map(|(_, v)| v.as_str())
}

#[test]
fn defaults_populate_required_headers() {
    let id = identity();
    let h = id.headers(None).ok().unwrap();
    assert_eq!(get(&h, HEADER_CLIENT_IDENTIFIER).unwrap(), "test-client-id");
    assert_eq!(get(&h, HEADER_PRODUCT).unwrap(), DEFAULT_PRODUCT);
    assert_eq!(get(&h, HEADER_VERSION).unwrap(), plex_rs::VERSION);
    assert_eq!(get(&h, HEADER_PLATFORM).unwrap(), "linux");
    assert_eq!(get(&h, HEADER_DEVICE).unwrap(), DEFAULT_DEVICE);
    assert_eq!(get(&h, HEADER_PROVIDES).unwrap(), DEFAULT_PROVIDES);
    assert_eq!(get(&h, HEADER_SYNC_VERSION).unwrap(), SYNC_VERSION);
    assert_eq!(get(&h, HEADER_ACCEPT).unwrap(), ACCEPT_JSON);
}

#[test]
fn optional_headers_are_absent_by_default() {
    let h = identity().headers(None).ok().unwrap();
    assert!(get(&h, HEADER_PLATFORM_VERSION).is_none());
    assert!(get(&h, HEADER_DEVICE_NAME).is_none());
    assert!(get(&h, HEADER_TOKEN).is_none());
}

#[test]
fn token_when_present_renders_into_x_plex_token_header() {
    let token = PlexToken::new("my-secret").ok().unwrap();
    let h = identity().headers(Some(&token)).ok().unwrap();
    assert_eq!(get(&h, HEADER_TOKEN).unwrap(), "my-secret");
}

#[test]
fn builder_methods_compose() {
    let id = identity()
        .with_product("custom-product")
        .with_version("9.9.9")
        .with_platform("Roku")
        .with_platform_version("4.3 build 1057")
        .with_device("Roku 3")
        .with_device_name("Living Room")
        .with_provides("controller,player")
        .with_sync_version("3");
    let h = id.headers(None).ok().unwrap();
    assert_eq!(get(&h, HEADER_PRODUCT).unwrap(), "custom-product");
    assert_eq!(get(&h, HEADER_VERSION).unwrap(), "9.9.9");
    assert_eq!(get(&h, HEADER_PLATFORM).unwrap(), "Roku");
    assert_eq!(get(&h, HEADER_PLATFORM_VERSION).unwrap(), "4.3 build 1057");
    assert_eq!(get(&h, HEADER_DEVICE).unwrap(), "Roku 3");
    assert_eq!(get(&h, HEADER_DEVICE_NAME).unwrap(), "Living Room");
    assert_eq!(get(&h, HEADER_PROVIDES).unwrap(), "controller,player");
    assert_eq!(get(&h, HEADER_SYNC_VERSION).unwrap(), "3");
}

#[test]
fn rejects_non_ascii_device_name() {
    let id = identity().with_device_name("Salon — France");
    let err = id.headers(None).err().unwrap();
    assert!(matches!(err, Error::InvalidHeader(_)));
}

#[test]
fn rejects_control_chars_in_product() {
    let id = identity().with_product("evil\rinjection");
    let err = id.headers(None).err().unwrap();
    assert!(matches!(err, Error::InvalidHeader(_)));
}

#[test]
fn header_count_matches_set_fields() {
    let h = identity().headers(None).ok().unwrap();
    assert_eq!(h.len(), 8);
    let token = PlexToken::new("t").ok().unwrap();
    let h = identity().headers(Some(&token)).ok().unwrap();
    assert_eq!(h.len(), 9);
    let h = identity()
        .with_platform_version("v")
        .with_device_name("D")
        .headers(Some(&token))
        .ok()
        .unwrap();
    assert_eq!(h.len(), 11);
}
