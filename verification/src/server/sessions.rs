//! Currently-playing sessions: the play-state discriminator, the user
//! and player records, and the percent-encoder for the termination
//! reason.

use vstd::prelude::*;
use vstd::string::StringSliceAdditionalSpecFns;

use crate::error::{Error, Result};
use crate::headers::opt_view;
use crate::server::{PlexBool, opt_bool, opt_to_bool};
use crate::server::join_path;
use crate::text::{owned, parse_u64, parse_u64_spec, pct_encode, pct_encoded, push_str, str_eq};
use crate::urls::{ParsedUrl, parsed_view, url_join};

verus! {

broadcast use vstd::string::group_string_axioms;

/// The state a session's player reports.
#[derive(Debug, Clone, PartialEq, Eq, Hash)]
#[non_exhaustive]
pub enum PlayState {
    /// Actively playing.
    Playing,
    /// Paused.
    Paused,
    /// Buffering.
    Buffering,
    /// Stopped.
    Stopped,
    /// Any other wire value.
    Other(String),
}

/// The wire spelling of a play state.
pub open spec fn play_state_wire(s: PlayState) -> Seq<char> {
    match s {
        PlayState::Playing => "playing"@,
        PlayState::Paused => "paused"@,
        PlayState::Buffering => "buffering"@,
        PlayState::Stopped => "stopped"@,
        PlayState::Other(t) => t@,
    }
}

/// The wire values with a variant of their own.
pub open spec fn known_play_state(s: Seq<char>) -> bool {
    s == "playing"@ || s == "paused"@ || s == "buffering"@ || s == "stopped"@
}

/// `r` is the state the wire value `s` names: `Playing`, `Paused`,
/// `Buffering` or `Stopped` for their spellings, `Other(s)` for any
/// other value.
pub open spec fn state_of(r: PlayState, s: Seq<char>) -> bool {
    &&& play_state_wire(r) == s
    &&& (s == "playing"@ ==> r is Playing)
    &&& (s == "paused"@ ==> r is Paused)
    &&& (s == "buffering"@ ==> r is Buffering)
    &&& (s == "stopped"@ ==> r is Stopped)
    &&& (r is Other <==> !known_play_state(s))
}

impl PlayState {
    /// Map the wire `state` attribute to a typed value; unknown values
    /// are kept verbatim.
    pub fn from_wire(s: &str) -> (r: Self)
        ensures
            state_of(r, s@),
            play_state_wire(r) == s@,
            s@ == "playing"@ ==> r is Playing,
            s@ == "paused"@ ==> r is Paused,
            s@ == "buffering"@ ==> r is Buffering,
            s@ == "stopped"@ ==> r is Stopped,
            r is Other <==> !(s@ == "playing"@ || s@ == "paused"@ || s@ == "buffering"@ || s@
                == "stopped"@),
    {
        proof {
            reveal_strlit("playing");
            reveal_strlit("paused");
            reveal_strlit("buffering");
            reveal_strlit("stopped");
            assert("paused"@[1] != "playing"@[1]);
            assert("stopped"@[0] != "playing"@[0]);
            assert("stopped"@[0] != "paused"@[0]);
        }
        if str_eq(s, "playing") {
            PlayState::Playing
        } else if str_eq(s, "paused") {
            PlayState::Paused
        } else if str_eq(s, "buffering") {
            PlayState::Buffering
        } else if str_eq(s, "stopped") {
            PlayState::Stopped
        } else {
            PlayState::Other(owned(s))
        }
    }
}

/// The user a session is associated with.
#[derive(Debug, Clone)]
#[non_exhaustive]
pub struct SessionUser {
    /// plex.tv account identifier (`0` for the local owner).
    pub id: u64,
    /// Display name.
    pub title: Option<String>,
    /// Avatar URL.
    pub thumb: Option<String>,
}

/// The player a session is being delivered to.
#[derive(Debug, Clone)]
#[non_exhaustive]
pub struct SessionPlayer {
    /// LAN IP address.
    pub address: Option<String>,
    /// Public IP address.
    pub remote_public_address: Option<String>,
    /// User-friendly device name.
    pub device: Option<String>,
    /// Stable client identifier.
    pub machine_identifier: Option<String>,
    /// Hardware model.
    pub model: Option<String>,
    /// Plex client product name.
    pub product: Option<String>,
    /// Playback state.
    pub state: PlayState,
    /// Title the player advertises.
    pub title: Option<String>,
    /// Player platform.
    pub platform: Option<String>,
    /// Platform version string.
    pub platform_version: Option<String>,
    /// Client product version.
    pub version: Option<String>,
    /// The player is on the local network.
    pub local: bool,
    /// The player accepts remote control.
    pub controllable: bool,
}

/// The `id` of a session user as it appears on the wire.
#[derive(Debug, Clone)]
pub enum UserIdValue {
    /// A JSON number; `None` when it is not a non-negative integer
    /// that fits in `u64`.
    Number(Option<u64>),
    /// A JSON string.
    Text(String),
    /// Any other JSON value.
    Other,
}

/// The decoded `<User>` element of a session.
#[derive(Debug, Clone)]
pub struct UserDto {
    /// `id`.
    pub id: Option<UserIdValue>,
    /// `title`.
    pub title: Option<String>,
    /// `thumb`.
    pub thumb: Option<String>,
}

/// The decoded `<Player>` element of a session.
#[derive(Debug, Clone)]
pub struct PlayerDto {
    /// `address`.
    pub address: Option<String>,
    /// `remotePublicAddress`.
    pub remote_public_address: Option<String>,
    /// `device`.
    pub device: Option<String>,
    /// `machineIdentifier`.
    pub machine_identifier: Option<String>,
    /// `model`.
    pub model: Option<String>,
    /// `product`.
    pub product: Option<String>,
    /// `state`.
    pub state: Option<String>,
    /// `title`.
    pub title: Option<String>,
    /// `platform`.
    pub platform: Option<String>,
    /// `platformVersion`.
    pub platform_version: Option<String>,
    /// `version`.
    pub version: Option<String>,
    /// `local`.
    pub local: Option<PlexBool>,
    /// `controllable`.
    pub controllable: Option<PlexBool>,
}

/// The numeric user id: the number when it is a `u64`, the parsed
/// string when it parses as one, otherwise 0.
pub open spec fn user_id_of(v: Option<UserIdValue>) -> u64 {
    match v {
        Some(UserIdValue::Number(Some(n))) => n,
        Some(UserIdValue::Text(s)) => match parse_u64_spec(s@) {
            Some(n) => n,
            None => 0,
        },
        _ => 0,
    }
}

/// The numeric user id of a session user.
pub fn parse_user_id(v: &Option<UserIdValue>) -> (r: u64)
    ensures
        r == user_id_of(*v),
{
    match v {
        Some(UserIdValue::Number(Some(n))) => *n,
        Some(UserIdValue::Text(s)) => match parse_u64(s.as_str()) {
            Some(n) => n,
            None => 0,
        },
        _ => 0,
    }
}

/// `u` is the session user an optional `<User>` element describes: an
/// absent element is the local owner (id 0) with no name or avatar.
pub open spec fn user_of(user: Option<UserDto>, u: SessionUser) -> bool {
    match user {
        Some(d) => u.id == user_id_of(d.id) && opt_view(u.title) == opt_view(d.title)
            && opt_view(u.thumb) == opt_view(d.thumb),
        None => u.id == 0 && u.title is None && u.thumb is None,
    }
}

/// `p` is the session player an optional `<Player>` element describes:
/// an absent element is an empty record whose state is `Other("")`, not
/// local and not controllable.
pub open spec fn player_of(player: Option<PlayerDto>, p: SessionPlayer) -> bool {
    match player {
        Some(d) => {
            &&& state_of(
                p.state,
                match d.state {
                    Some(s) => s@,
                    None => ""@,
                },
            )
            &&& opt_view(p.address) == opt_view(d.address)
            &&& opt_view(p.remote_public_address) == opt_view(d.remote_public_address)
            &&& opt_view(p.device) == opt_view(d.device)
            &&& opt_view(p.machine_identifier) == opt_view(d.machine_identifier)
            &&& opt_view(p.model) == opt_view(d.model)
            &&& opt_view(p.product) == opt_view(d.product)
            &&& opt_view(p.title) == opt_view(d.title)
            &&& opt_view(p.platform) == opt_view(d.platform)
            &&& opt_view(p.platform_version) == opt_view(d.platform_version)
            &&& opt_view(p.version) == opt_view(d.version)
            &&& p.local == opt_bool(d.local)
            &&& p.controllable == opt_bool(d.controllable)
        },
        None => {
            &&& p.state matches PlayState::Other(s) && s@.len() == 0
            &&& p.address is None && p.remote_public_address is None && p.device is None
            &&& p.machine_identifier is None && p.model is None && p.product is None
            &&& p.title is None && p.platform is None && p.platform_version is None
            &&& p.version is None && !p.local && !p.controllable
        },
    }
}

/// The user of a session; an absent element is the local owner with
/// no name or avatar.
pub fn session_user(user: Option<UserDto>) -> (u: SessionUser)
    ensures
        user_of(user, u),
{
    match user {
        Some(d) => {
            let id = parse_user_id(&d.id);
            SessionUser { id, title: d.title, thumb: d.thumb }
        },
        None => SessionUser { id: 0, title: None, thumb: None },
    }
}

/// The player of a session; an absent element yields an empty record
/// whose state is `Other("")`.
pub fn session_player(player: Option<PlayerDto>) -> (p: SessionPlayer)
    ensures
        player_of(player, p),
{
    match player {
        Some(d) => {
            let state = match &d.state {
                Some(s) => PlayState::from_wire(s.as_str()),
                None => PlayState::from_wire(""),
            };
            let local = opt_to_bool(&d.local);
            let controllable = opt_to_bool(&d.controllable);
            SessionPlayer {
                state,
                address: d.address,
                remote_public_address: d.remote_public_address,
                device: d.device,
                machine_identifier: d.machine_identifier,
                model: d.model,
                product: d.product,
                title: d.title,
                platform: d.platform,
                platform_version: d.platform_version,
                version: d.version,
                local,
                controllable,
            }
        },
        None => SessionPlayer {
            address: None,
            remote_public_address: None,
            device: None,
            machine_identifier: None,
            model: None,
            product: None,
            state: PlayState::Other(String::new()),
            title: None,
            platform: None,
            platform_version: None,
            version: None,
            local: false,
            controllable: false,
        },
    }
}

/// The session key, user and player of a session entry: the key as
/// given, the user and player as [`session_user`] and
/// [`session_player`] read them. Fails with [`Error::Config`] exactly
/// when the entry has no session key.
pub fn session_parts(
    session_key: Option<String>,
    user: Option<UserDto>,
    player: Option<PlayerDto>,
) -> (r: Result<(String, SessionUser, SessionPlayer)>)
    ensures
        r is Ok <==> session_key is Some,
        r matches Ok(t) ==> t.0@ == session_key->0@ && user_of(user, t.1) && player_of(player, t.2),
        r matches Err(e) ==> (e matches Error::Config(m) && m@ == "session entry missing sessionKey"@),
{
    let key = match session_key {
        Some(k) => k,
        None => {
            return Err(Error::Config(owned("session entry missing sessionKey")));
        },
    };
    Ok((key, session_user(user), session_player(player)))
}

/// RFC 3986 percent-encoder for the `reason` query value.
pub fn pct_query(input: &str) -> (out: String)
    ensures
        out@ == pct_encoded(input.spec_bytes()),
{
    pct_encode(input)
}

/// The path that terminates session `session_key`, with the reason
/// percent-encoded when given.
pub open spec fn terminate_path(session_key: Seq<char>, reason: Option<Seq<u8>>) -> Seq<char> {
    "/status/sessions/terminate?sessionId="@ + session_key + match reason {
        Some(r) => "&reason="@ + pct_encoded(r),
        None => Seq::empty(),
    }
}

/// The URL that terminates session `session_key` on the server at
/// `base_url`; fails with [`Error::Url`] when the path does not join.
pub fn terminate_url(base_url: &str, session_key: &str, reason: Option<&str>) -> (r: Result<
    ParsedUrl,
>)
    ensures
        match url_join(
            base_url@,
            terminate_path(
                session_key@,
                match reason {
                    Some(t) => Some(t.spec_bytes()),
                    None => None,
                },
            ),
        ) {
            None => r matches Err(Error::Url(_)),
            Some(u) => r matches Ok(p) && parsed_view(p) == u,
        },
{
    let mut path = owned("/status/sessions/terminate?sessionId=");
    push_str(&mut path, session_key);
    if let Some(t) = reason {
        push_str(&mut path, "&reason=");
        let e = pct_query(t);
        push_str(&mut path, e.as_str());
    }
    proof {
        assert(path@ =~= terminate_path(
            session_key@,
            match reason {
                Some(t) => Some(t.spec_bytes()),
                None => None,
            },
        ));
    }
    join_path(base_url, path.as_str())
}

} // verus!
