//! Retry policy of the HTTP layer: full-jitter exponential backoff and
//! the decision whether a failed attempt is retried.
//!
//! The backoff ceiling for the n-th retry is
//! `min(max, base * 2^min(n - 1, 20))` (saturating), and the delay is
//! drawn from `[0, ceiling)` with a xorshift generator seeded from the
//! wall clock. All durations are in nanoseconds.

use vstd::prelude::*;
use vstd::arithmetic::power2::{pow2, lemma_pow2_unfold, lemma2_to64};

use crate::config::{config_debug, ClientConfig};
use crate::text::{debug_str, owned, push_str, str_debug};

verus! {

/// The exponent cap on the backoff doubling (2^20 ≈ 1M×).
pub const MAX_BACKOFF_SHIFT: u32 = 20;

/// The doubling exponent used for the 1-indexed `attempt`.
pub open spec fn backoff_shift(attempt: u32) -> nat {
    let s: int = if attempt == 0 { 0 } else { attempt - 1 };
    if s > MAX_BACKOFF_SHIFT { MAX_BACKOFF_SHIFT as nat } else { s as nat }
}

/// `base * 2^shift`, saturated at `u64::MAX`.
pub open spec fn scaled_delay(attempt: u32, base: u64) -> u64 {
    let p = base * pow2(backoff_shift(attempt));
    if p > u64::MAX { u64::MAX } else { p as u64 }
}

/// The backoff ceiling: the scaled delay, capped at `max`.
pub open spec fn backoff_ceiling(attempt: u32, base: u64, max: u64) -> u64 {
    let s = scaled_delay(attempt, base);
    if s < max { s } else { max }
}

/// One xorshift64 step.
pub open spec fn xorshift(x: u64) -> u64 {
    let a = x ^ (x << 13u64);
    let b = a ^ (a >> 7u64);
    b ^ (b << 17u64)
}

/// The jitter drawn for `max_nanos` from `seed`: zero when the range is
/// empty, otherwise the xorshift of the seed reduced into `[0, max)`.
pub open spec fn jitter(max_nanos: u64, seed: u64) -> u64 {
    if max_nanos == 0 { 0 } else { (xorshift(seed ^ 1) % max_nanos) as u64 }
}

/// The number of attempts a policy of `max_retries` retries allows.
pub open spec fn max_attempts(max_retries: u32) -> int {
    if max_retries == u32::MAX { u32::MAX as int } else { max_retries + 1 }
}

/// The backoff ceiling for the 1-indexed retry `attempt`.
pub fn retry_ceiling(attempt: u32, base: u64, max: u64) -> (c: u64)
    ensures
        c == backoff_ceiling(attempt, base, max),
        c <= max,
{
    let s0: u32 = if attempt == 0 { 0 } else { attempt - 1 };
    let shift: u32 = if s0 > MAX_BACKOFF_SHIFT { MAX_BACKOFF_SHIFT } else { s0 };
    let mut factor: u64 = 1;
    let mut i: u32 = 0;
    proof {
        lemma2_to64();
    }
    while i < shift
        invariant
            i <= shift <= MAX_BACKOFF_SHIFT,
            factor == pow2(i as nat),
            pow2(20) == 0x100000,
        decreases shift - i,
    {
        proof {
            lemma_pow2_unfold((i + 1) as nat);
            vstd::arithmetic::power2::lemma_pow2_strictly_increases(i as nat, 20);
        }
        factor = factor * 2;
        i = i + 1;
    }
    assert(shift as nat == backoff_shift(attempt));
    let scaled: u64 = match base.checked_mul(factor) {
        Some(p) => p,
        None => u64::MAX,
    };
    if scaled < max {
        scaled
    } else {
        max
    }
}

/// Draw a jitter value in `[0, max_nanos)` from `seed`.
pub fn pcg_jitter(max_nanos: u64, seed: u64) -> (r: u64)
    ensures
        r == jitter(max_nanos, seed),
        max_nanos == 0 ==> r == 0,
        max_nanos > 0 ==> r < max_nanos,
{
    if max_nanos == 0 {
        return 0;
    }
    let mut x: u64 = seed ^ 1;
    x = x ^ (x << 13u64);
    x = x ^ (x >> 7u64);
    x = x ^ (x << 17u64);
    x % max_nanos
}

/// The delay before retry `attempt` for a given random `seed`: the
/// jitter drawn from `seed` within the backoff ceiling.
pub fn retry_delay_with_seed(attempt: u32, base: u64, max: u64, seed: u64) -> (d: u64)
    ensures
        d == jitter(backoff_ceiling(attempt, base, max), seed),
        d <= backoff_ceiling(attempt, base, max),
        d <= max,
{
    let ceiling = retry_ceiling(attempt, base, max);
    pcg_jitter(ceiling, seed)
}

/// Wall-clock entropy for the jitter (`SystemTime::now`, as nanoseconds
/// since the Unix epoch, truncated to 64 bits; 0 before the epoch).
/// Nothing is promised about the value.
#[verifier::external_body]
fn clock_entropy() -> u64 {
    std::time::SystemTime::now().duration_since(std::time::UNIX_EPOCH).map_or(
        0,
        |d| d.as_nanos() as u64,
    )
}

/// Full-jitter exponential backoff: a delay drawn uniformly-ish from
/// `[0, min(max, base * 2^(attempt-1)))`, zero when that range is empty.
/// `attempt` is 1-indexed; attempt 0 behaves like attempt 1. The delay is
/// the jitter of that ceiling for some seed; the seed comes from the
/// clock, so which one is not stated.
pub fn retry_delay(attempt: u32, base: u64, max: u64) -> (d: u64)
    ensures
        exists|seed: u64| d == #[trigger] jitter(backoff_ceiling(attempt, base, max), seed),
        d <= backoff_ceiling(attempt, base, max),
        backoff_ceiling(attempt, base, max) > 0 ==> d < backoff_ceiling(attempt, base, max),
        backoff_ceiling(attempt, base, max) == 0 ==> d == 0,
        d <= max,
{
    let seed = clock_entropy();
    let d = retry_delay_with_seed(attempt, base, max, seed);
    assert(d == jitter(backoff_ceiling(attempt, base, max), seed));
    d
}

/// Whether the 0-indexed `attempt` that just failed is retried under a
/// policy of `max_retries` retries: only retryable failures, and only
/// while another attempt is allowed.
pub fn should_retry(attempt: u32, max_retries: u32, retryable: bool) -> (r: bool)
    ensures
        r == (retryable && attempt + 1 < max_attempts(max_retries)),
{
    let max_attempts: u32 = if max_retries == u32::MAX { u32::MAX } else { max_retries + 1 };
    retryable && (attempt as u64) + 1 < max_attempts as u64
}

/// The debug text of an HTTP client built from `c`: its configuration,
/// token redacted, and the transport elided.
pub open spec fn http_client_debug(c: ClientConfig) -> Seq<char> {
    "HttpClient { config: "@ + config_debug(c) + ", inner: "@ + str_debug("reqwest::Client { .. }"@)
        + " }"@
}

/// The debug text of an HTTP client built from `config`.
pub fn http_client_debug_text(config: &ClientConfig) -> (s: String)
    ensures
        s@ == http_client_debug(*config),
{
    let mut s = owned("HttpClient { config: ");
    let c = config.debug_text();
    push_str(&mut s, c.as_str());
    push_str(&mut s, ", inner: ");
    let d = debug_str("reqwest::Client { .. }");
    push_str(&mut s, d.as_str());
    push_str(&mut s, " }");
    s
}

/// Token redaction: an HTTP client's debug text does not depend on the
/// value of its token, only on whether there is one, so the token never
/// shows in it.
pub proof fn law_client_debug_hides_token(c1: ClientConfig, c2: ClientConfig)
    requires
        c1 == (ClientConfig { token: c1.token, ..c2 }),
        c1.token is Some <==> c2.token is Some,
    ensures
        http_client_debug(c1) == http_client_debug(c2),
{
}

} // verus!
