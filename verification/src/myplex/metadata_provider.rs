//! The plex.tv metadata provider: escaping of rating keys and the
//! user-state and scrobble URLs.

use vstd::prelude::*;
use vstd::string::StringSliceAdditionalSpecFns;

use crate::error::{Error, Result};
use crate::headers::opt_view;
use crate::text::{owned, parse_i64, parse_i64_spec, pct_encode, pct_encoded, push_str, str_eq};
use crate::time::{chrono_timestamp_ok, epoch_seconds_of, parse_epoch_seconds, representable_seconds};

verus! {

broadcast use vstd::string::group_string_axioms;

/// Identifier of the library plug-in that scrobbles are attributed to.
pub const SCROBBLE_IDENTIFIER: &'static str = "com.plexapp.plugins.library";

/// Escape a rating key for a URL: unreserved bytes (`A-Z a-z 0-9 - _ .
/// ~`) stay, every other byte becomes `%XX`.
pub fn encode_rating_key(s: &str) -> (out: String)
    ensures
        out@ == pct_encoded(s.spec_bytes()),
{
    pct_encode(s)
}

/// `<base>/library/metadata/<key>/userState`.
pub fn user_state_url(metadata_base: &str, rating_key: &str) -> (u: String)
    ensures
        u@ == metadata_base@ + "/library/metadata/"@ + pct_encoded(rating_key.spec_bytes())
            + "/userState"@,
{
    let mut u = owned(metadata_base);
    push_str(&mut u, "/library/metadata/");
    let k = encode_rating_key(rating_key);
    push_str(&mut u, k.as_str());
    push_str(&mut u, "/userState");
    u
}

/// `<base>/actions/scrobble?key=<key>&identifier=…` (or `unscrobble`
/// when `played` is false).
pub fn scrobble_url(metadata_base: &str, rating_key: &str, played: bool) -> (u: String)
    ensures
        u@ == metadata_base@ + (if played {
            "/actions/scrobble?key="@
        } else {
            "/actions/unscrobble?key="@
        }) + pct_encoded(rating_key.spec_bytes()) + "&identifier="@
            + "com.plexapp.plugins.library"@,
{
    let mut u = owned(metadata_base);
    if played {
        push_str(&mut u, "/actions/scrobble?key=");
    } else {
        push_str(&mut u, "/actions/unscrobble?key=");
    }
    let k = encode_rating_key(rating_key);
    push_str(&mut u, k.as_str());
    push_str(&mut u, "&identifier=");
    push_str(&mut u, SCROBBLE_IDENTIFIER);
    u
}

/// The signed-in user's state of one item. Timestamps are epoch
/// seconds.
#[derive(Debug, Clone, PartialEq, Eq)]
#[non_exhaustive]
pub struct UserState {
    /// Rating key of the item.
    pub rating_key: String,
    /// Item type.
    pub kind: Option<String>,
    /// Completed views.
    pub view_count: u32,
    /// Viewed children (for shows and seasons).
    pub viewed_leaf_count: u32,
    /// Resume offset in milliseconds.
    pub view_offset_ms: u64,
    /// The view state is `complete`.
    pub view_state_complete: bool,
    /// Last view (epoch seconds).
    pub last_viewed_at: Option<i64>,
    /// When the item was watchlisted (epoch seconds).
    pub watchlisted_at: Option<i64>,
}

impl UserState {
    /// Viewed at least once.
    pub fn is_played(&self) -> (b: bool)
        ensures
            b == (self.view_count > 0),
    {
        self.view_count > 0
    }

    /// On the watchlist.
    pub fn is_on_watchlist(&self) -> (b: bool)
        ensures
            b == self.watchlisted_at is Some,
    {
        self.watchlisted_at.is_some()
    }
}

/// A timestamp as it appears in a user-state body.
#[derive(Debug, Clone)]
pub enum TimestampValue {
    /// A JSON number; `None` when it is not an `i64`.
    Number(Option<i64>),
    /// A JSON string.
    Text(String),
    /// Any other JSON value.
    Other,
}

/// The epoch seconds a user-state timestamp denotes: a number of
/// seconds, or a string holding seconds or an RFC 3339 date; only
/// timestamps chrono can represent.
pub open spec fn timestamp_of(v: Option<TimestampValue>) -> Option<i64> {
    match v {
        Some(TimestampValue::Number(Some(n))) => if chrono_timestamp_ok(n) {
            Some(n)
        } else {
            None
        },
        Some(TimestampValue::Text(s)) => epoch_seconds_of(s@),
        _ => None,
    }
}

/// Read a user-state timestamp.
pub fn parse_timestamp(raw: &Option<TimestampValue>) -> (r: Option<i64>)
    ensures
        r == timestamp_of(*raw),
{
    match raw {
        Some(TimestampValue::Number(Some(n))) => representable_seconds(*n),
        Some(TimestampValue::Text(s)) => parse_epoch_seconds(Some(s.as_str())),
        _ => None,
    }
}

/// A `<UserState>` entry as decoded from the wire.
#[derive(Debug, Clone)]
pub struct UserStateDto {
    /// `ratingKey`.
    pub rating_key: String,
    /// `type`.
    pub kind: Option<String>,
    /// `viewCount`.
    pub view_count: u32,
    /// `viewedLeafCount`.
    pub viewed_leaf_count: u32,
    /// `viewOffset`.
    pub view_offset: u64,
    /// `viewState`.
    pub view_state: Option<String>,
    /// `lastViewedAt`.
    pub last_viewed_at: Option<TimestampValue>,
    /// `watchlistedAt`.
    pub watchlisted_at: Option<TimestampValue>,
}

/// `u` is the state the entry `d` describes: complete exactly when the
/// view state is `complete`, timestamps read by [`parse_timestamp`].
pub open spec fn describes(d: UserStateDto, u: UserState) -> bool {
    &&& u.rating_key@ == d.rating_key@ && opt_view(u.kind) == opt_view(d.kind)
    &&& u.view_count == d.view_count && u.viewed_leaf_count == d.viewed_leaf_count
    &&& u.view_offset_ms == d.view_offset
    &&& u.view_state_complete == (d.view_state matches Some(v) && v@ == "complete"@)
    &&& u.last_viewed_at == timestamp_of(d.last_viewed_at)
    &&& u.watchlisted_at == timestamp_of(d.watchlisted_at)
}

impl UserStateDto {
    /// The state this entry describes: complete exactly when the view
    /// state is `complete`.
    pub fn into_domain(self) -> (u: UserState)
        ensures
            describes(self, u),
    {
        let complete = match &self.view_state {
            Some(v) => str_eq(v.as_str(), "complete"),
            None => false,
        };
        let last_viewed_at = parse_timestamp(&self.last_viewed_at);
        let watchlisted_at = parse_timestamp(&self.watchlisted_at);
        UserState {
            rating_key: self.rating_key,
            kind: self.kind,
            view_count: self.view_count,
            viewed_leaf_count: self.viewed_leaf_count,
            view_offset_ms: self.view_offset,
            view_state_complete: complete,
            last_viewed_at,
            watchlisted_at,
        }
    }
}

/// The state of the first `<UserState>` entry of a body; a body with
/// none fails with [`Error::Config`].
pub fn first_user_state(entries: Vec<UserStateDto>) -> (r: Result<UserState>)
    ensures
        entries@.len() == 0 ==> (r matches Err(Error::Config(m))
            && m@ == "userState body had no UserState entry"@),
        entries@.len() > 0 ==> (r matches Ok(u) && describes(entries@[0], u)),
{
    let mut entries = entries;
    if entries.len() == 0 {
        return Err(Error::Config(owned("userState body had no UserState entry")));
    }
    let first = entries.remove(0);
    Ok(first.into_domain())
}

} // verus!
