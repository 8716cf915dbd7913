//! Timestamps as epoch seconds: which ones `chrono` can represent, and
//! the epoch seconds of an RFC 3339 date.

use vstd::prelude::*;

use crate::text::{parse_i64, parse_i64_spec};

verus! {

/// The first second chrono can represent: -262143-01-01T00:00:00Z.
pub const MIN_TIMESTAMP: i64 = -8_334_601_228_800;

/// The last second chrono can represent: +262142-12-31T23:59:59Z.
pub const MAX_TIMESTAMP: i64 = 8_210_266_876_799;

/// Whether `chrono::DateTime::<Utc>::from_timestamp(secs, 0)` yields a
/// date: `secs` lies between the first second of year -262143 and the
/// last second of year 262142, the years chrono's dates span.
pub open spec fn chrono_timestamp_ok(secs: i64) -> bool {
    MIN_TIMESTAMP <= secs <= MAX_TIMESTAMP
}

/// The epoch seconds of the RFC 3339 date `s` as
/// `chrono::DateTime::parse_from_rfc3339` reads it, or `None` when it
/// does not parse.
pub uninterp spec fn chrono_rfc3339_secs(s: Seq<char>) -> Option<i64>;

/// `chrono::DateTime::<Utc>::from_timestamp(secs, 0).is_some()`: true
/// exactly when `secs` lies in chrono's range of dates, from
/// -262143-01-01 (`NaiveDate::MIN`) to 262142-12-31 (`NaiveDate::MAX`).
#[verifier::external_body]
fn timestamp_ok(secs: i64) -> (r: bool)
    ensures
        r == chrono_timestamp_ok(secs),
{
    chrono::DateTime::<chrono::Utc>::from_timestamp(secs, 0).is_some()
}

/// `chrono::DateTime::parse_from_rfc3339(s)` then `timestamp()`: the
/// result is the named reading of `s`. Nothing more is stated of the
/// RFC 3339 grammar.
#[verifier::external_body]
fn rfc3339_secs(s: &str) -> (r: Option<i64>)
    ensures
        r == chrono_rfc3339_secs(s@),
{
    chrono::DateTime::parse_from_rfc3339(s).ok().map(|d| d.timestamp())
}

/// The epoch seconds a timestamp attribute denotes: a decimal number of
/// seconds (when chrono can represent it), else an RFC 3339 date.
pub open spec fn epoch_seconds_of(s: Seq<char>) -> Option<i64> {
    match parse_i64_spec(s) {
        Some(n) => if chrono_timestamp_ok(n) {
            Some(n)
        } else {
            None
        },
        None => chrono_rfc3339_secs(s),
    }
}

/// Read a timestamp attribute as epoch seconds; absent stays absent.
pub fn parse_epoch_seconds(raw: Option<&str>) -> (r: Option<i64>)
    ensures
        r == match raw {
            Some(s) => epoch_seconds_of(s@),
            None => None,
        },
{
    let s = match raw {
        Some(s) => s,
        None => {
            return None;
        },
    };
    match parse_i64(s) {
        Some(n) => if timestamp_ok(n) {
            Some(n)
        } else {
            None
        },
        None => rfc3339_secs(s),
    }
}

/// An epoch-seconds number that chrono can represent, else `None`.
pub fn representable_seconds(secs: i64) -> (r: Option<i64>)
    ensures
        r == if chrono_timestamp_ok(secs) {
            Some(secs)
        } else {
            None
        },
{
    if timestamp_ok(secs) {
        Some(secs)
    } else {
        None
    }
}

} // verus!
