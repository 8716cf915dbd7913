//! Remote control of a Plex player: the wire spellings of media types
//! and repeat modes, the command URL, and the `playMedia` parameters.

use vstd::prelude::*;

use crate::error::{Error, Result};
use crate::headers::opt_view;
use crate::ids::{MachineIdentifier, PlexToken};
use crate::text::{dec_chars, fmt_u64, owned, push_str, str_eq};
use crate::urls::{
    ParsedUrl, append_query, join_url, pairs_view, parse_origin, parsed_view, url_join, url_origin,
    with_query,
};

verus! {

broadcast use vstd::string::group_string_axioms;

/// Media type argument of every playback command.
#[derive(Debug, Copy, Clone, PartialEq, Eq)]
pub enum MediaType {
    /// Video content.
    Video,
    /// Music content.
    Music,
    /// Photos.
    Photo,
}

/// The `type` value of a media type.
pub open spec fn media_type_wire(m: MediaType) -> Seq<char> {
    match m {
        MediaType::Video => "video"@,
        MediaType::Music => "music"@,
        MediaType::Photo => "photo"@,
    }
}

impl MediaType {
    /// The `type` query value.
    pub fn as_wire(self) -> (r: &'static str)
        ensures
            r@ == media_type_wire(self),
    {
        match self {
            MediaType::Video => "video",
            MediaType::Music => "music",
            MediaType::Photo => "photo",
        }
    }
}

/// Repeat mode of a player.
#[derive(Debug, Copy, Clone, PartialEq, Eq)]
pub enum RepeatMode {
    /// No repeat.
    Off,
    /// Repeat the current item.
    One,
    /// Repeat the whole queue.
    All,
}

/// The `repeat` value of a mode.
pub open spec fn repeat_mode_wire(m: RepeatMode) -> Seq<char> {
    match m {
        RepeatMode::Off => "0"@,
        RepeatMode::One => "1"@,
        RepeatMode::All => "2"@,
    }
}

impl RepeatMode {
    /// The `repeat` query value.
    pub fn as_wire(self) -> (r: &'static str)
        ensures
            r@ == repeat_mode_wire(self),
    {
        match self {
            RepeatMode::Off => "0",
            RepeatMode::One => "1",
            RepeatMode::All => "2",
        }
    }
}

/// `(name, value)` views of borrowed pairs.
pub open spec fn str_pairs_view(v: Seq<(&str, &str)>) -> Seq<(Seq<char>, Seq<char>)> {
    v.map_values(|p: (&str, &str)| (p.0@, p.1@))
}

/// The command pairs: the caller's parameters, then `commandID`.
pub open spec fn command_pairs(params: Seq<(Seq<char>, Seq<char>)>, command_id: u64) -> Seq<
    (Seq<char>, Seq<char>),
> {
    params.push(("commandID"@, dec_chars(command_id as nat)))
}

/// The URL of player command `path` (such as `playback/play`) with its
/// parameters and command id, on the player at `base_url`; fails with
/// [`Error::Url`] when `/player/<path>` does not join onto it.
pub fn command_url(base_url: &str, path: &str, params: &[(&str, &str)], command_id: u64) -> (r:
    Result<ParsedUrl>)
    ensures
        match url_join(base_url@, "/player/"@ + path@) {
            None => r matches Err(Error::Url(_)),
            Some(u) => r matches Ok(p) && parsed_view(p) == with_query(
                u,
                command_pairs(str_pairs_view(params@), command_id),
            ),
        },
{
    let mut reference = owned("/player/");
    push_str(&mut reference, path);
    proof {
        reveal_strlit("/player/");
    }
    let joined = match join_url(base_url, reference.as_str()) {
        Ok(u) => u,
        Err(m) => {
            return Err(Error::Url(m));
        },
    };
    let mut pairs: Vec<(String, String)> = Vec::new();
    let mut i: usize = 0;
    while i < params.len()
        invariant
            i <= params@.len(),
            pairs@.len() == i,
            pairs_view(pairs@) == str_pairs_view(params@).take(i as int),
        decreases params@.len() - i,
    {
        let kv = params[i];
        let ghost before = pairs@;
        pairs.push((owned(kv.0), owned(kv.1)));
        proof {
            assert(pairs@ == before.push(pairs@[i as int]));
            assert(pairs_view(pairs@) =~= pairs_view(before).push((kv.0@, kv.1@)));
            assert(str_pairs_view(params@)[i as int] == (kv.0@, kv.1@));
            assert(str_pairs_view(params@).take(i + 1) =~= str_pairs_view(params@).take(
                i as int,
            ).push((kv.0@, kv.1@)));
        }
        i += 1;
    }
    let id = fmt_u64(command_id);
    pairs.push((owned("commandID"), id));
    proof {
        assert(str_pairs_view(params@).take(params@.len() as int) =~= str_pairs_view(params@));
        assert(pairs_view(pairs@) =~= command_pairs(str_pairs_view(params@), command_id));
    }
    Ok(append_query(joined, &pairs))
}

/// What `playMedia` needs of the first item of a play queue.
#[derive(Debug, Clone)]
pub struct QueueItemRef {
    /// The item's `key` (`/library/metadata/<id>`).
    pub key: String,
    /// The item's list type (`video`, `audio`, `photo`).
    pub list_type: String,
    /// The item's rating key.
    pub rating_key: u64,
}

/// The player's spelling of a list type: `audio` is `music`, others
/// are unchanged.
pub open spec fn player_type(list_type: Seq<char>) -> Seq<char> {
    if list_type == "audio"@ {
        "music"@
    } else {
        list_type
    }
}

/// The port to announce: the URL's port, or 443 for `https` and 80
/// otherwise.
pub open spec fn announced_port(scheme: Seq<char>, port: Option<u16>) -> Seq<char> {
    match port {
        Some(p) => dec_chars(p as nat),
        None => if scheme == "https"@ {
            "443"@
        } else {
            "80"@
        },
    }
}

/// The `playMedia` parameters, in order.
pub open spec fn play_media_spec(
    machine_id: Seq<char>,
    scheme: Seq<char>,
    host: Seq<char>,
    port: Option<u16>,
    offset_ms: u64,
    item: QueueItemRef,
    queue_id: u64,
    token: Seq<char>,
) -> Seq<(Seq<char>, Seq<char>)> {
    seq![
        ("providerIdentifier"@, "com.plexapp.plugins.library"@),
        ("machineIdentifier"@, machine_id),
        ("protocol"@, scheme),
        ("address"@, host),
        ("port"@, announced_port(scheme, port)),
        ("offset"@, dec_chars(offset_ms as nat)),
        ("key"@, item.key@),
        ("type"@, player_type(item.list_type@)),
        ("containerKey"@, "/playQueues/"@ + dec_chars(queue_id as nat) + "?window=100&own=1"@),
        ("token"@, token),
    ]
}

/// The parameters of a `playMedia` command that starts `first` (the
/// first item of play queue `queue_id`) at `offset_ms` from the server
/// at `server_url` identified by `machine_id`.
///
/// Fails with [`Error::Config`] when the queue is empty, then when the
/// server URL has no host, then when there is no token; and with
/// [`Error::Url`] when the server URL does not parse.
pub fn play_media_params(
    server_url: &str,
    machine_id: &MachineIdentifier,
    token: Option<&PlexToken>,
    queue_id: u64,
    first: Option<&QueueItemRef>,
    offset_ms: u64,
) -> (r: Result<Vec<(String, String)>>)
    ensures
        first is None ==> (r matches Err(Error::Config(m)) && m@
            == "PlayQueue has no items — cannot play_media"@),
        first is Some ==> match url_origin(server_url@) {
            None => r matches Err(Error::Url(_)),
            Some((scheme, host, port)) => match host {
                None => r matches Err(Error::Config(m)) && m@ == "PMS base URL has no host"@,
                Some(h) => match token {
                    None => r matches Err(Error::Config(m)) && m@
                        == "PMS has no token; cannot forward"@,
                    Some(t) => r matches Ok(v) && pairs_view(v@) == play_media_spec(
                        machine_id@,
                        scheme,
                        h,
                        port,
                        offset_ms,
                        *first->0,
                        queue_id,
                        t@,
                    ),
                },
            },
        },
{
    let item = match first {
        Some(i) => i,
        None => {
            return Err(Error::Config(owned("PlayQueue has no items — cannot play_media")));
        },
    };
    let (scheme, host, port) = match parse_origin(server_url) {
        Ok(o) => o,
        Err(m) => {
            return Err(Error::Url(m));
        },
    };
    let host = match host {
        Some(h) => h,
        None => {
            return Err(Error::Config(owned("PMS base URL has no host")));
        },
    };
    let tok = match token {
        Some(t) => t.expose(),
        None => {
            return Err(Error::Config(owned("PMS has no token; cannot forward")));
        },
    };
    let port_s = match port {
        Some(p) => fmt_u64(p as u64),
        None => if str_eq(scheme.as_str(), "https") {
            owned("443")
        } else {
            owned("80")
        },
    };
    let mut container_key = owned("/playQueues/");
    let qid = fmt_u64(queue_id);
    push_str(&mut container_key, qid.as_str());
    push_str(&mut container_key, "?window=100&own=1");
    let mtype = if str_eq(item.list_type.as_str(), "audio") {
        owned("music")
    } else {
        owned(item.list_type.as_str())
    };
    let mut v: Vec<(String, String)> = Vec::new();
    v.push((owned("providerIdentifier"), owned("com.plexapp.plugins.library")));
    v.push((owned("machineIdentifier"), owned(machine_id.as_str())));
    v.push((owned("protocol"), scheme));
    v.push((owned("address"), host));
    v.push((owned("port"), port_s));
    v.push((owned("offset"), fmt_u64(offset_ms)));
    v.push((owned("key"), owned(item.key.as_str())));
    v.push((owned("type"), mtype));
    v.push((owned("containerKey"), container_key));
    v.push((owned("token"), owned(tok)));
    proof {
        reveal_strlit("/playQueues/");
        reveal_strlit("?window=100&own=1");
        let o = url_origin(server_url@).unwrap();
        assert(pairs_view(v@) =~= play_media_spec(
            machine_id@,
            o.0,
            o.1.unwrap(),
            o.2,
            offset_ms,
            *item,
            queue_id,
            token->0@,
        ));
    }
    Ok(v)
}

/// The `volume` parameter of a `setParameters` command: the requested
/// level, capped at 100.
pub fn volume_param(volume: u8) -> (s: String)
    ensures
        s@ == dec_chars((if volume > 100 { 100 } else { volume }) as nat),
{
    let v: u8 = if volume > 100 { 100 } else { volume };
    fmt_u64(v as u64)
}

} // verus!
