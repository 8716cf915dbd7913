use plex_rs::client::http_client_debug_text;
use plex_rs::config::ClientConfig;
use plex_rs::ids::{ClientIdentifier, PlexToken};
use plex_rs::client::{pcg_jitter, retry_ceiling, retry_delay, retry_delay_with_seed, should_retry};

const MS: u64 = 1_000_000;
const SEC: u64 = 1_000_000_000;

#[test]
fn retry_delay_attempt_zero_is_zero() {
    let d = retry_delay(0, 100 * MS, SEC);
    assert!(d <= 100 * MS);
}

#[test]
fn retry_delay_within_ceiling_for_first_retry() {
    for _ in 0..50 {
        let d = retry_delay(1, 100 * MS, 10 * SEC);
        assert!(d <= 100 * MS, "delay {d} exceeded base 100ms");
    }
}

#[test]
fn retry_delay_grows_exponentially_then_caps() {
    for _ in 0..50 {
        let d = retry_delay(5, 100 * MS, 10 * SEC);
        assert!(d <= 1600 * MS);
    }
    for _ in 0..50 {
        let d = retry_delay(20, 100 * MS, 2 * SEC);
        assert!(d <= 2 * SEC);
    }
}

#[test]
fn retry_delay_zero_max_returns_zero() {
    let d = retry_delay(3, 100 * MS, 0);
    assert_eq!(d, 0);
}

#[test]
fn retry_ceiling_doubles_per_attempt_and_caps() {
    assert_eq!(retry_ceiling(1, 100 * MS, 10 * SEC), 100 * MS);
    assert_eq!(retry_ceiling(2, 100 * MS, 10 * SEC), 200 * MS);
    assert_eq!(retry_ceiling(5, 100 * MS, 10 * SEC), 1600 * MS);
    assert_eq!(retry_ceiling(20, 100 * MS, 2 * SEC), 2 * SEC);
    assert_eq!(retry_ceiling(0, 100 * MS, 10 * SEC), 100 * MS);
}

#[test]
fn jitter_stays_below_its_bound() {
    for seed in 0..200u64 {
        let j = pcg_jitter(1000, seed.wrapping_mul(0x9E37_79B9_7F4A_7C15));
        assert!(j <= 1000);
    }
    assert_eq!(pcg_jitter(0, 12345), 0);
}

#[test]
fn seeded_delay_is_bounded_by_the_ceiling() {
    for seed in 0..100u64 {
        let d = retry_delay_with_seed(3, 100 * MS, 10 * SEC, seed);
        assert!(d <= 400 * MS);
    }
}

#[test]
fn retries_stop_after_the_budget() {
    assert!(should_retry(0, 3, true));
    assert!(should_retry(2, 3, true));
    assert!(!should_retry(3, 3, true));
    assert!(!should_retry(0, 3, false));
}

#[test]
fn retry_delay_distribution_is_non_constant() {
    let mut seen = std::collections::HashSet::new();
    for _ in 0..40 {
        let d = retry_delay(3, 100_000_000, 10_000_000_000);
        seen.insert(d);
    }
    assert!(seen.len() > 1, "retry_delay returned the same value 40 times in a row");
}

#[test]
fn http_client_debug_redacts_token() {
    let token = PlexToken::new("super-secret-token").unwrap();
    let cfg = match ClientConfig::builder(ClientIdentifier::new("c").unwrap(), "linux").token(Some(token)).build() {
        Ok(c) => c,
        Err(e) => panic!("unexpected {e:?}"),
    };
    let s = http_client_debug_text(&cfg);
    assert!(!s.contains("super-secret-token"), "Debug leaked token: {s}");
    assert!(s.contains("***redacted***"));
    assert!(s.starts_with("HttpClient { config: ClientConfig { identity: PlexIdentity { client_identifier: ClientIdentifier(\"c\")"));
    assert!(s.ends_with(", inner: \"reqwest::Client { .. }\" }"));
    assert!(s.contains("request_timeout: 30s"));
}
