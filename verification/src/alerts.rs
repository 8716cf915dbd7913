//! Server alerts (the `/:/websockets/notifications` stream): the
//! notification payloads, the routing of a frame's `type` to the array
//! that holds its entries, and the websocket URL.

use vstd::prelude::*;

use crate::error::{Error, Result};
use crate::ids::PlexToken;
use crate::text::{owned, str_eq};
use crate::urls::{
    ParsedUrl, UrlParts, append_query, full_serialization, join_url, pairs_view, parse_origin,
    parsed_view, set_url_scheme, url_join, url_origin, url_set_scheme, with_query,
};

verus! {

broadcast use vstd::string::group_string_axioms;

/// Path of the notifications websocket.
pub const ALERTS_PATH: &'static str = "/:/websockets/notifications";

/// Phase of a transcode session an alert reports.
#[derive(Debug, Copy, Clone, PartialEq, Eq)]
pub enum TranscodeLifecycle {
    /// `transcodeSession.start`.
    Start,
    /// `transcodeSession.update`.
    Update,
    /// `transcodeSession.end`.
    End,
}

/// A playback-state change of a session.
#[derive(Debug, Clone)]
#[non_exhaustive]
pub struct PlayingNotification {
    /// Session key.
    pub session_key: String,
    /// Rating key of the item.
    pub rating_key: String,
    /// Item key.
    pub key: String,
    /// Playback offset in milliseconds.
    pub view_offset: Option<u64>,
    /// `playing`, `paused`, `stopped`, …
    pub state: String,
    /// Account id.
    pub user_id: Option<u64>,
    /// Transcode session key.
    pub transcode_session: Option<String>,
}

/// A library timeline change.
#[derive(Debug, Clone)]
#[non_exhaustive]
pub struct TimelineEntry {
    /// Item id.
    pub item_id: u64,
    /// Parent item id.
    pub parent_item_id: Option<u64>,
    /// Library section id.
    pub section_id: Option<i64>,
    /// Plex type code.
    pub plex_type: Option<i32>,
    /// Timeline state code.
    pub state: i32,
    /// Title.
    pub title: Option<String>,
    /// Provider identifier.
    pub identifier: Option<String>,
    /// Metadata state.
    pub metadata_state: Option<String>,
}

/// A background-activity event.
#[derive(Debug, Clone)]
#[non_exhaustive]
pub struct ActivityNotification {
    /// `started`, `updated`, `ended`.
    pub event: String,
    /// The activity.
    pub activity: Option<ActivityBody>,
}

/// The activity carried by an [`ActivityNotification`].
#[derive(Debug, Clone)]
#[non_exhaustive]
pub struct ActivityBody {
    /// Activity id.
    pub uuid: Option<String>,
    /// Activity type.
    pub kind: Option<String>,
    /// Can be cancelled.
    pub cancellable: Option<bool>,
    /// Progress percentage.
    pub progress: Option<u8>,
    /// Title.
    pub title: Option<String>,
    /// Subtitle.
    pub subtitle: Option<String>,
}

/// A server status message.
#[derive(Debug, Clone)]
#[non_exhaustive]
pub struct StatusNotification {
    /// Title.
    pub title: Option<String>,
    /// Description.
    pub description: Option<String>,
    /// Notification name.
    pub name: Option<String>,
}

/// A change of the server's reachability from plex.tv.
#[derive(Debug, Clone)]
#[non_exhaustive]
pub struct ReachabilityNotification {
    /// Reachable.
    pub reachability: bool,
}

/// A changed server preference.
#[derive(Debug, Clone)]
#[non_exhaustive]
pub struct SettingNotification {
    /// Setting id.
    pub id: Option<String>,
    /// New value.
    pub value: Option<String>,
}

/// A background-processing-queue event.
#[derive(Debug, Clone)]
#[non_exhaustive]
pub struct BackgroundProcessingQueueNotification {
    /// Queue id.
    pub queue_id: Option<i64>,
    /// Event name.
    pub event: Option<String>,
}

/// The family of a notification frame, by its `type`.
#[derive(Debug, Copy, Clone, PartialEq, Eq)]
pub enum AlertFamily {
    /// `playing`.
    Playing,
    /// `timeline`.
    Timeline,
    /// `activity`.
    Activity,
    /// `status`.
    Status,
    /// `reachability`.
    Reachability,
    /// `setting` or `preference`.
    Setting,
    /// `backgroundProcessingQueue`.
    BackgroundProcessingQueue,
    /// `transcodeSession.start` / `.update` / `.end`.
    TranscodeSession(TranscodeLifecycle),
    /// Any other type.
    Unknown,
}

/// The family a frame `type` belongs to.
pub open spec fn family_of(kind: Seq<char>) -> AlertFamily {
    if kind == "playing"@ {
        AlertFamily::Playing
    } else if kind == "timeline"@ {
        AlertFamily::Timeline
    } else if kind == "activity"@ {
        AlertFamily::Activity
    } else if kind == "status"@ {
        AlertFamily::Status
    } else if kind == "reachability"@ {
        AlertFamily::Reachability
    } else if kind == "setting"@ || kind == "preference"@ {
        AlertFamily::Setting
    } else if kind == "backgroundProcessingQueue"@ {
        AlertFamily::BackgroundProcessingQueue
    } else if kind == "transcodeSession.start"@ {
        AlertFamily::TranscodeSession(TranscodeLifecycle::Start)
    } else if kind == "transcodeSession.update"@ {
        AlertFamily::TranscodeSession(TranscodeLifecycle::Update)
    } else if kind == "transcodeSession.end"@ {
        AlertFamily::TranscodeSession(TranscodeLifecycle::End)
    } else {
        AlertFamily::Unknown
    }
}

/// Route a frame's `type` to its family.
pub fn classify(kind: &str) -> (f: AlertFamily)
    ensures
        f == family_of(kind@),
{
    if str_eq(kind, "playing") {
        AlertFamily::Playing
    } else if str_eq(kind, "timeline") {
        AlertFamily::Timeline
    } else if str_eq(kind, "activity") {
        AlertFamily::Activity
    } else if str_eq(kind, "status") {
        AlertFamily::Status
    } else if str_eq(kind, "reachability") {
        AlertFamily::Reachability
    } else if str_eq(kind, "setting") || str_eq(kind, "preference") {
        AlertFamily::Setting
    } else if str_eq(kind, "backgroundProcessingQueue") {
        AlertFamily::BackgroundProcessingQueue
    } else if str_eq(kind, "transcodeSession.start") {
        AlertFamily::TranscodeSession(TranscodeLifecycle::Start)
    } else if str_eq(kind, "transcodeSession.update") {
        AlertFamily::TranscodeSession(TranscodeLifecycle::Update)
    } else if str_eq(kind, "transcodeSession.end") {
        AlertFamily::TranscodeSession(TranscodeLifecycle::End)
    } else {
        AlertFamily::Unknown
    }
}

/// The payload keys that may hold a family's entries, in the order they
/// are tried.
pub open spec fn family_keys(f: AlertFamily) -> Seq<Seq<char>> {
    match f {
        AlertFamily::Playing => seq!["PlaySessionStateNotification"@],
        AlertFamily::Timeline => seq!["TimelineEntry"@],
        AlertFamily::Activity => seq!["ActivityNotification"@],
        AlertFamily::Status => seq!["StatusNotification"@],
        AlertFamily::Reachability => seq!["ReachabilityNotification"@],
        AlertFamily::Setting => seq!["Setting"@, "Preference"@],
        AlertFamily::BackgroundProcessingQueue => seq![
            "BackgroundProcessingQueueEventNotification"@,
            "BackgroundProcessingQueueNotification"@,
        ],
        AlertFamily::TranscodeSession(_) => seq!["TranscodeSession"@],
        AlertFamily::Unknown => seq![],
    }
}

/// The payload keys of a family.
pub fn payload_keys(f: AlertFamily) -> (v: Vec<&'static str>)
    ensures
        v@.map_values(|s: &str| s@) == family_keys(f),
{
    let v: Vec<&'static str> = match f {
        AlertFamily::Playing => vec!["PlaySessionStateNotification"],
        AlertFamily::Timeline => vec!["TimelineEntry"],
        AlertFamily::Activity => vec!["ActivityNotification"],
        AlertFamily::Status => vec!["StatusNotification"],
        AlertFamily::Reachability => vec!["ReachabilityNotification"],
        AlertFamily::Setting => vec!["Setting", "Preference"],
        AlertFamily::BackgroundProcessingQueue => vec![
            "BackgroundProcessingQueueEventNotification",
            "BackgroundProcessingQueueNotification",
        ],
        AlertFamily::TranscodeSession(_) => vec!["TranscodeSession"],
        AlertFamily::Unknown => vec![],
    };
    proof {
        assert(v@.map_values(|s: &str| s@) =~= family_keys(f));
    }
    v
}

/// The websocket scheme for a server scheme: `wss` for `https`, `ws`
/// otherwise.
pub open spec fn ws_scheme(scheme: Seq<char>) -> Seq<char> {
    if scheme == "https"@ {
        "wss"@
    } else {
        "ws"@
    }
}

/// The notifications URL for the server at `base_url`: the websocket
/// path joined on, the token appended as `X-Plex-Token`, and the scheme
/// switched to `ws` (or `wss` for an https server).
///
/// Fails with [`Error::Url`] when the path does not join or the result
/// does not parse, and with [`Error::Config`] when the scheme cannot be
/// switched.
pub fn alerts_url(base_url: &str, token: &PlexToken) -> (r: Result<ParsedUrl>)
    ensures
        match url_join(base_url@, "/:/websockets/notifications"@) {
            None => r matches Err(Error::Url(_)),
            Some(u) => {
                let with = with_query(u, seq![("X-Plex-Token"@, token@)]);
                let full = full_serialization(with);
                match url_origin(full) {
                    None => r matches Err(Error::Url(_)),
                    Some(o) => match url_set_scheme(full, ws_scheme(o.0)) {
                        None => r matches Err(Error::Config(m)) && m@ == "alerts: failed to set ws scheme"@,
                        Some(p) => r matches Ok(q) && parsed_view(q) == p,
                    },
                }
            },
        },
{
    proof {
        reveal_strlit("/:/websockets/notifications");
    }
    let joined = match join_url(base_url, ALERTS_PATH) {
        Ok(u) => u,
        Err(m) => {
            return Err(Error::Url(m));
        },
    };
    let mut pairs: Vec<(String, String)> = Vec::new();
    pairs.push((owned("X-Plex-Token"), owned(token.expose())));
    proof {
        assert(pairs_view(pairs@) =~= seq![("X-Plex-Token"@, token@)]);
    }
    let with = append_query(joined, &pairs);
    let full = with.as_string();
    let (scheme, _host, _port) = match parse_origin(full.as_str()) {
        Ok(o) => o,
        Err(m) => {
            return Err(Error::Url(m));
        },
    };
    let ws = if str_eq(scheme.as_str(), "https") {
        "wss"
    } else {
        "ws"
    };
    match set_url_scheme(full.as_str(), ws) {
        Some(p) => Ok(p),
        None => Err(Error::Config(owned("alerts: failed to set ws scheme"))),
    }
}

/// The documented frame `type` of each family (`setting` for the
/// settings family, which also answers to `preference`).
pub open spec fn frame_type(f: AlertFamily) -> Seq<char> {
    match f {
        AlertFamily::Playing => "playing"@,
        AlertFamily::Timeline => "timeline"@,
        AlertFamily::Activity => "activity"@,
        AlertFamily::Status => "status"@,
        AlertFamily::Reachability => "reachability"@,
        AlertFamily::Setting => "setting"@,
        AlertFamily::BackgroundProcessingQueue => "backgroundProcessingQueue"@,
        AlertFamily::TranscodeSession(TranscodeLifecycle::Start) => "transcodeSession.start"@,
        AlertFamily::TranscodeSession(TranscodeLifecycle::Update) => "transcodeSession.update"@,
        AlertFamily::TranscodeSession(TranscodeLifecycle::End) => "transcodeSession.end"@,
        AlertFamily::Unknown => ""@,
    }
}

/// Every documented frame type routes to its own family, `preference`
/// routes to the settings family too, and the routing is exact: a type
/// that reaches a family is that family's documented type (or
/// `preference`); anything else is unknown.
pub proof fn law_frame_types_route_to_their_family(f: AlertFamily, kind: Seq<char>)
    ensures
        f != AlertFamily::Unknown ==> family_of(frame_type(f)) == f,
        family_of("preference"@) == AlertFamily::Setting,
        family_of(kind) != AlertFamily::Unknown ==> (kind == frame_type(family_of(kind)) || kind
            == "preference"@),
{
    reveal_strlit("playing");
    reveal_strlit("timeline");
    reveal_strlit("activity");
    reveal_strlit("status");
    reveal_strlit("reachability");
    reveal_strlit("setting");
    reveal_strlit("preference");
    reveal_strlit("backgroundProcessingQueue");
    reveal_strlit("transcodeSession.start");
    reveal_strlit("transcodeSession.update");
    reveal_strlit("transcodeSession.end");
    assert("timeline"@[0] != "activity"@[0]);
    assert("setting"@[0] != "playing"@[0]);
    assert("status"@[1] != "setting"@[1]);
    assert("transcodeSession.start"@[17] != "transcodeSession.update"@[17]);
    assert("transcodeSession.end"@[17] != "transcodeSession.start"@[17]);
    assert("preference"@[0] != "reachability"@[0]);
    let ks: Seq<Seq<char>> = seq![
        "playing"@,
        "timeline"@,
        "activity"@,
        "status"@,
        "reachability"@,
        "setting"@,
        "preference"@,
        "backgroundProcessingQueue"@,
        "transcodeSession.start"@,
        "transcodeSession.update"@,
        "transcodeSession.end"@,
    ];
    assert forall|i: int, j: int| 0 <= i < j < 11 implies ks[i] != ks[j] by {
        if ks[i].len() == ks[j].len() {
            if i == 0 {
                assert(ks[i][0] != ks[j][0]);
            } else if i == 1 {
                assert(ks[i][0] != ks[j][0]);
            } else {
                assert(ks[i][17] != ks[j][17]);
            }
        }
    }
    assert(ks[6] != ks[0] && ks[6] != ks[1] && ks[6] != ks[2] && ks[6] != ks[3] && ks[6] != ks[4]);
    if f != AlertFamily::Unknown {
        match f {
            AlertFamily::Playing => {},
            AlertFamily::Timeline => {
                assert(ks[1] != ks[0]);
            },
            AlertFamily::Activity => {
                assert(ks[2] != ks[0] && ks[2] != ks[1]);
            },
            AlertFamily::Status => {
                assert(ks[3] != ks[0] && ks[3] != ks[1] && ks[3] != ks[2]);
            },
            AlertFamily::Reachability => {
                assert(ks[4] != ks[0] && ks[4] != ks[1] && ks[4] != ks[2] && ks[4] != ks[3]);
            },
            AlertFamily::Setting => {
                assert(ks[5] != ks[0] && ks[5] != ks[1] && ks[5] != ks[2] && ks[5] != ks[3]
                    && ks[5] != ks[4]);
            },
            AlertFamily::BackgroundProcessingQueue => {
                assert(ks[7] != ks[0] && ks[7] != ks[1] && ks[7] != ks[2] && ks[7] != ks[3]
                    && ks[7] != ks[4] && ks[7] != ks[5] && ks[7] != ks[6]);
            },
            AlertFamily::TranscodeSession(l) => {
                assert(ks[8] != ks[0] && ks[8] != ks[1] && ks[8] != ks[2] && ks[8] != ks[3]
                    && ks[8] != ks[4] && ks[8] != ks[5] && ks[8] != ks[6] && ks[8] != ks[7]);
                assert(ks[9] != ks[0] && ks[9] != ks[1] && ks[9] != ks[2] && ks[9] != ks[3]
                    && ks[9] != ks[4] && ks[9] != ks[5] && ks[9] != ks[6] && ks[9] != ks[7]
                    && ks[9] != ks[8]);
                assert(ks[10] != ks[0] && ks[10] != ks[1] && ks[10] != ks[2] && ks[10] != ks[3]
                    && ks[10] != ks[4] && ks[10] != ks[5] && ks[10] != ks[6] && ks[10] != ks[7]
                    && ks[10] != ks[8] && ks[10] != ks[9]);
            },
            AlertFamily::Unknown => {},
        }
    }
}

} // verus!
