use plex_rs::auth::{pin_expired, pin_expiry};
use plex_rs::error::Error;

#[test]
fn pin_expiry_reads_rfc3339_instant() {
    assert_eq!(pin_expiry("2026-12-31T23:59:59Z").unwrap(), 1_798_761_599);
}

#[test]
fn pin_expiry_rejects_garbage() {
    assert!(matches!(pin_expiry("not a date"), Err(Error::Config(_))));
}

#[test]
fn pin_expired_only_strictly_after_instant() {
    assert!(!pin_expired(1_000_000, 1_000));
    assert!(pin_expired(1_000_001, 1_000));
    assert!(!pin_expired(999_999, 1_000));
}
