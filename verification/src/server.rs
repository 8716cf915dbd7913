//! The server's identity record and the flexible wire scalars Plex
//! uses in its JSON (`"1"` / `1` / `true` booleans, string-or-number
//! fields).

pub mod admin;
pub mod history;
pub mod sessions;
pub mod settings;

use vstd::prelude::*;

use crate::error::{Error, Result};
use crate::headers::opt_view;
use crate::ids::MachineIdentifier;
use crate::text::{copy_string, fmt_i64, signed_dec_chars, str_eq};
use crate::urls::{ParsedUrl, join_url, parsed_view, url_join};

verus! {

broadcast use vstd::string::group_string_axioms;

/// Boolean fields Plex serialises as `"0"` / `"1"` / `0` / `1` / `true`.
#[derive(Debug, Clone)]
pub enum PlexBool {
    /// A JSON number.
    Numeric(u8),
    /// A JSON boolean.
    Native(bool),
    /// A JSON string.
    Str(String),
}

/// The truth value of a flexible boolean: non-zero numbers, `true`,
/// and the strings `1`, `true`, `True`.
pub open spec fn plex_bool_value(b: PlexBool) -> bool {
    match b {
        PlexBool::Numeric(n) => n != 0,
        PlexBool::Native(v) => v,
        PlexBool::Str(s) => s@ == "1"@ || s@ == "true"@ || s@ == "True"@,
    }
}

/// An optional flexible boolean, absent meaning `false`.
pub open spec fn opt_bool(b: Option<PlexBool>) -> bool {
    match b {
        Some(v) => plex_bool_value(v),
        None => false,
    }
}

impl PlexBool {
    /// The truth value.
    pub fn to_bool(&self) -> (r: bool)
        ensures
            r == plex_bool_value(*self),
    {
        match self {
            PlexBool::Numeric(n) => *n != 0,
            PlexBool::Native(b) => *b,
            PlexBool::Str(s) => str_eq(s.as_str(), "1") || str_eq(s.as_str(), "true") || str_eq(
                s.as_str(),
                "True",
            ),
        }
    }
}

/// An optional flexible boolean; absent is `false`.
pub fn opt_to_bool(b: &Option<PlexBool>) -> (r: bool)
    ensures
        r == opt_bool(*b),
{
    match b {
        Some(v) => v.to_bool(),
        None => false,
    }
}

/// A field Plex serialises either as a JSON string or a JSON number.
#[derive(Debug, Clone)]
pub enum FlexString {
    /// `"7"`.
    Str(String),
    /// `7`.
    Int(i64),
}

/// The text of a string-or-number field: the string itself, or the
/// decimal rendering of the number.
pub open spec fn flex_text(f: FlexString) -> Seq<char> {
    match f {
        FlexString::Str(s) => s@,
        FlexString::Int(n) => signed_dec_chars(n as int),
    }
}

impl FlexString {
    /// Normalise to a `String`.
    pub fn into_string(self) -> (s: String)
        ensures
            s@ == flex_text(self),
    {
        match self {
            FlexString::Str(s) => s,
            FlexString::Int(n) => fmt_i64(n),
        }
    }
}

/// Identity of a Plex Media Server, as returned by `GET /`.
#[derive(Debug, Clone, PartialEq, Eq)]
#[non_exhaustive]
pub struct ServerIdentity {
    /// The PMS's stable identifier (`machineIdentifier`).
    pub machine_identifier: MachineIdentifier,
    /// Server software version.
    pub version: String,
    /// User-set friendly name.
    pub friendly_name: Option<String>,
    /// OS the server is running on.
    pub platform: Option<String>,
    /// OS version string.
    pub platform_version: Option<String>,
    /// Linked to a plex.tv account.
    pub my_plex: bool,
    /// Username of the linked plex.tv account.
    pub my_plex_username: Option<String>,
    /// plex.tv sign-in state.
    pub my_plex_signin_state: Option<String>,
    /// The linked account holds a Plex Pass subscription.
    pub my_plex_subscription: bool,
    /// Clients may delete media.
    pub allow_media_deletion: bool,
    /// Library sharing is permitted.
    pub allow_sharing: bool,
    /// Live TV / DVR flag.
    pub livetv: Option<String>,
    /// Last modification time of the root container (epoch seconds).
    pub updated_at: Option<i64>,
}

/// The fields of the root `MediaContainer` that [`ServerIdentity`]
/// needs, as decoded from the wire.
#[derive(Debug, Clone)]
pub struct RootContainerDto {
    /// `machineIdentifier`.
    pub machine_identifier: String,
    /// `version`.
    pub version: String,
    /// `friendlyName`.
    pub friendly_name: Option<String>,
    /// `platform`.
    pub platform: Option<String>,
    /// `platformVersion`.
    pub platform_version: Option<String>,
    /// `myPlex`.
    pub my_plex: Option<PlexBool>,
    /// `myPlexUsername`.
    pub my_plex_username: Option<String>,
    /// `myPlexSigninState`.
    pub my_plex_signin_state: Option<String>,
    /// `myPlexSubscription`.
    pub my_plex_subscription: Option<PlexBool>,
    /// `allowMediaDeletion`.
    pub allow_media_deletion: Option<PlexBool>,
    /// `allowSharing`.
    pub allow_sharing: Option<PlexBool>,
    /// `livetv`.
    pub livetv: Option<FlexString>,
    /// `updatedAt`.
    pub updated_at: Option<i64>,
}

impl ServerIdentity {
    /// Build the identity from the decoded root container; fails with
    /// [`Error::Config`] exactly when the machine identifier is empty.
    pub fn from_dto(dto: RootContainerDto) -> (r: Result<Self>)
        ensures
            r is Ok <==> dto.machine_identifier@.len() > 0,
            r matches Err(e) ==> (e matches Error::Config(m) && m@
                == "machine identifier must not be empty"@),
            r matches Ok(id) ==> {
                &&& id.machine_identifier@ == dto.machine_identifier@
                &&& id.version@ == dto.version@
                &&& opt_view(id.friendly_name) == opt_view(dto.friendly_name)
                &&& opt_view(id.platform) == opt_view(dto.platform)
                &&& opt_view(id.platform_version) == opt_view(dto.platform_version)
                &&& id.my_plex == opt_bool(dto.my_plex)
                &&& opt_view(id.my_plex_username) == opt_view(dto.my_plex_username)
                &&& opt_view(id.my_plex_signin_state) == opt_view(dto.my_plex_signin_state)
                &&& id.my_plex_subscription == opt_bool(dto.my_plex_subscription)
                &&& id.allow_media_deletion == opt_bool(dto.allow_media_deletion)
                &&& id.allow_sharing == opt_bool(dto.allow_sharing)
                &&& opt_view(id.livetv) == match dto.livetv {
                    Some(f) => Some(flex_text(f)),
                    None => None,
                }
                &&& id.updated_at == dto.updated_at
            },
    {
        let machine_identifier = MachineIdentifier::new(dto.machine_identifier.as_str())?;
        let my_plex = opt_to_bool(&dto.my_plex);
        let my_plex_subscription = opt_to_bool(&dto.my_plex_subscription);
        let allow_media_deletion = opt_to_bool(&dto.allow_media_deletion);
        let allow_sharing = opt_to_bool(&dto.allow_sharing);
        let livetv = match dto.livetv {
            Some(f) => Some(f.into_string()),
            None => None,
        };
        Ok(
            ServerIdentity {
                machine_identifier,
                version: dto.version,
                friendly_name: dto.friendly_name,
                platform: dto.platform,
                platform_version: dto.platform_version,
                my_plex,
                my_plex_username: dto.my_plex_username,
                my_plex_signin_state: dto.my_plex_signin_state,
                my_plex_subscription,
                allow_media_deletion,
                allow_sharing,
                livetv,
                updated_at: dto.updated_at,
            },
        )
    }
}

/// `path` joined onto the URL serialized as `base_url`; fails with
/// [`Error::Url`] when the join fails.
pub fn join_path(base_url: &str, path: &str) -> (r: Result<ParsedUrl>)
    ensures
        match url_join(base_url@, path@) {
            None => r matches Err(Error::Url(_)),
            Some(u) => r matches Ok(p) && parsed_view(p) == u,
        },
{
    match join_url(base_url, path) {
        Ok(u) => Ok(u),
        Err(m) => Err(Error::Url(m)),
    }
}

} // verus!
