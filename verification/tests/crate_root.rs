use plex_rs::{DEFAULT_PRODUCT, VERSION};

#[test]
fn version_matches_cargo() {
    assert!(!VERSION.is_empty());
    assert!(VERSION.chars().next().is_some_and(|c| c.is_ascii_digit()));
}

#[test]
fn default_product_is_set() {
    assert_eq!(DEFAULT_PRODUCT, "plex-rs");
}
