//! `X-Plex-*` identity headers.
//!
//! Plex identifies clients through a fixed set of `X-Plex-*` request
//! headers. [`PlexIdentity`] holds their values; [`PlexIdentity::headers`]
//! renders them (plus `Accept: application/json` and an optional token)
//! as an ordered list of `(name, value)` pairs, rejecting any value that
//! is not a valid ASCII header value.

use vstd::prelude::*;

use crate::error::{Error, Result};
use crate::ids::{ClientIdentifier, PlexToken};
use crate::text::{chars_of, owned, push_str};

verus! {

/// `x-plex-token` header name (case-insensitive on the wire).
pub const HEADER_TOKEN: &'static str = "x-plex-token";

/// `x-plex-client-identifier` header name.
pub const HEADER_CLIENT_IDENTIFIER: &'static str = "x-plex-client-identifier";

/// `x-plex-product` header name.
pub const HEADER_PRODUCT: &'static str = "x-plex-product";

/// `x-plex-version` header name.
pub const HEADER_VERSION: &'static str = "x-plex-version";

/// `x-plex-platform` header name.
pub const HEADER_PLATFORM: &'static str = "x-plex-platform";

/// `x-plex-platform-version` header name.
pub const HEADER_PLATFORM_VERSION: &'static str = "x-plex-platform-version";

/// `x-plex-device` header name.
pub const HEADER_DEVICE: &'static str = "x-plex-device";

/// `x-plex-device-name` header name.
pub const HEADER_DEVICE_NAME: &'static str = "x-plex-device-name";

/// `x-plex-provides` header name.
pub const HEADER_PROVIDES: &'static str = "x-plex-provides";

/// `x-plex-sync-version` header name.
pub const HEADER_SYNC_VERSION: &'static str = "x-plex-sync-version";

/// `accept` header name.
pub const HEADER_ACCEPT: &'static str = "accept";

/// Default product name when callers don't override.
pub const DEFAULT_PRODUCT: &'static str = "plex-rs";

/// Default device name when callers don't override.
pub const DEFAULT_DEVICE: &'static str = "Other";

/// Default `X-Plex-Provides` advertisement.
pub const DEFAULT_PROVIDES: &'static str = "controller";

/// Sync version Plex expects from API clients.
pub const SYNC_VERSION: &'static str = "2";

/// `Accept` value that negotiates JSON.
pub const ACCEPT_JSON: &'static str = "application/json";


/// Client identity broadcast on every request.
#[derive(Debug, Clone)]
pub struct PlexIdentity {
    /// `X-Plex-Client-Identifier` — must be stable per install.
    pub client_identifier: ClientIdentifier,
    /// `X-Plex-Product` (display name).
    pub product: String,
    /// `X-Plex-Version`.
    pub version: String,
    /// `X-Plex-Platform`.
    pub platform: String,
    /// `X-Plex-Platform-Version`.
    pub platform_version: Option<String>,
    /// `X-Plex-Device` — device-class string.
    pub device: String,
    /// `X-Plex-Device-Name` — user-friendly name.
    pub device_name: Option<String>,
    /// `X-Plex-Provides` — capabilities advertised to Plex.
    pub provides: String,
    /// `X-Plex-Sync-Version`.
    pub sync_version: String,
}

/// ASCII character.
pub open spec fn is_ascii_char(c: char) -> bool {
    (c as u32) < 128
}

/// A byte the HTTP header-value grammar accepts: visible characters,
/// space and tab, but not other control characters or DEL.
pub open spec fn is_header_char(c: char) -> bool {
    ((c as u32) >= 32 && (c as u32) != 127) || c == '\t'
}

/// A header value this crate will send: ASCII only, no control
/// characters other than tab.
pub open spec fn valid_header_value(v: Seq<char>) -> bool {
    forall|i: int| 0 <= i < v.len() ==> is_ascii_char(#[trigger] v[i]) && is_header_char(v[i])
}

/// Character views of `(name, value)` pairs.
pub open spec fn pair_views(v: Seq<(String, String)>) -> Seq<(Seq<char>, Seq<char>)> {
    v.map_values(|p: (String, String)| (p.0@, p.1@))
}

/// Appends `e` when `o` is present.
pub open spec fn push_opt(
    s: Seq<(Seq<char>, Seq<char>)>,
    name: Seq<char>,
    o: Option<Seq<char>>,
) -> Seq<(Seq<char>, Seq<char>)> {
    match o {
        Some(v) => s.push((name, v)),
        None => s,
    }
}

/// The optional-string view.
pub open spec fn opt_view(o: Option<String>) -> Option<Seq<char>> {
    match o {
        Some(s) => Some(s@),
        None => None,
    }
}

/// The headers an identity renders to, in order: `accept`, client
/// identifier, product, version, platform, optional platform version,
/// device, optional device name, provides, sync version, optional token.
pub open spec fn identity_headers(id: PlexIdentity, token: Option<Seq<char>>) -> Seq<
    (Seq<char>, Seq<char>),
> {
    let s1 = seq![
        (HEADER_ACCEPT@, ACCEPT_JSON@),
        (HEADER_CLIENT_IDENTIFIER@, id.client_identifier@),
        (HEADER_PRODUCT@, id.product@),
        (HEADER_VERSION@, id.version@),
        (HEADER_PLATFORM@, id.platform@),
    ];
    let s2 = push_opt(s1, HEADER_PLATFORM_VERSION@, opt_view(id.platform_version));
    let s3 = s2.push((HEADER_DEVICE@, id.device@));
    let s4 = push_opt(s3, HEADER_DEVICE_NAME@, opt_view(id.device_name));
    let s5 = s4.push((HEADER_PROVIDES@, id.provides@)).push((HEADER_SYNC_VERSION@, id.sync_version@));
    push_opt(s5, HEADER_TOKEN@, token)
}

/// Every value in `hs` is a valid header value.
pub open spec fn all_valid(hs: Seq<(Seq<char>, Seq<char>)>) -> bool {
    forall|i: int| 0 <= i < hs.len() ==> valid_header_value(#[trigger] hs[i].1)
}

impl PlexIdentity {
    /// An identity with the default product, version, device,
    /// capabilities and sync version for the given platform.
    pub fn new(client_identifier: ClientIdentifier, platform: &str) -> (r: Self)
        ensures
            r.client_identifier == client_identifier,
            r.product@ == DEFAULT_PRODUCT@,
            r.version@ == crate::VERSION@,
            r.platform@ == platform@,
            r.platform_version is None,
            r.device@ == DEFAULT_DEVICE@,
            r.device_name is None,
            r.provides@ == DEFAULT_PROVIDES@,
            r.sync_version@ == SYNC_VERSION@,
    {
        PlexIdentity {
            client_identifier,
            product: owned(DEFAULT_PRODUCT),
            version: owned(crate::VERSION),
            platform: owned(platform),
            platform_version: None,
            device: owned(DEFAULT_DEVICE),
            device_name: None,
            provides: owned(DEFAULT_PROVIDES),
            sync_version: owned(SYNC_VERSION),
        }
    }

    /// Override the product name.
    pub fn with_product(self, product: &str) -> (r: Self)
        ensures
            r.product@ == product@,
            r == (PlexIdentity { product: r.product, ..self }),
    {
        PlexIdentity { product: owned(product), ..self }
    }

    /// Override the version string.
    pub fn with_version(self, version: &str) -> (r: Self)
        ensures
            r.version@ == version@,
            r == (PlexIdentity { version: r.version, ..self }),
    {
        PlexIdentity { version: owned(version), ..self }
    }

    /// Override the platform string.
    pub fn with_platform(self, platform: &str) -> (r: Self)
        ensures
            r.platform@ == platform@,
            r == (PlexIdentity { platform: r.platform, ..self }),
    {
        PlexIdentity { platform: owned(platform), ..self }
    }

    /// Set the optional platform version.
    pub fn with_platform_version(self, version: &str) -> (r: Self)
        ensures
            r.platform_version matches Some(v) && v@ == version@,
            r == (PlexIdentity { platform_version: r.platform_version, ..self }),
    {
        PlexIdentity { platform_version: Some(owned(version)), ..self }
    }

    /// Override the device class.
    pub fn with_device(self, device: &str) -> (r: Self)
        ensures
            r.device@ == device@,
            r == (PlexIdentity { device: r.device, ..self }),
    {
        PlexIdentity { device: owned(device), ..self }
    }

    /// Set the friendly device name.
    pub fn with_device_name(self, name: &str) -> (r: Self)
        ensures
            r.device_name matches Some(v) && v@ == name@,
            r == (PlexIdentity { device_name: r.device_name, ..self }),
    {
        PlexIdentity { device_name: Some(owned(name)), ..self }
    }

    /// Override the capabilities advertisement.
    pub fn with_provides(self, provides: &str) -> (r: Self)
        ensures
            r.provides@ == provides@,
            r == (PlexIdentity { provides: r.provides, ..self }),
    {
        PlexIdentity { provides: owned(provides), ..self }
    }

    /// Override the sync protocol version.
    pub fn with_sync_version(self, version: &str) -> (r: Self)
        ensures
            r.sync_version@ == version@,
            r == (PlexIdentity { sync_version: r.sync_version, ..self }),
    {
        PlexIdentity { sync_version: owned(version), ..self }
    }

    /// Render this identity (and an optional token) as the ordered list
    /// of `(name, value)` header pairs.
    ///
    /// Fails with [`Error::InvalidHeader`] exactly when some value is not
    /// a valid ASCII header value.
    pub fn headers(&self, token: Option<&PlexToken>) -> (r: Result<Vec<(String, String)>>)
        ensures
            r is Ok <==> all_valid(
                identity_headers(
                    *self,
                    match token {
                        Some(t) => Some(t@),
                        None => None,
                    },
                ),
            ),
            r matches Ok(v) ==> pair_views(v@) == identity_headers(
                *self,
                match token {
                    Some(t) => Some(t@),
                    None => None,
                },
            ),
            r matches Err(e) ==> e is InvalidHeader,
    {
        let ghost tok: Option<Seq<char>> = match token {
            Some(t) => Some(t@),
            None => None,
        };
        let ghost all = identity_headers(*self, tok);
        let mut entries: Vec<(&str, &str)> = Vec::new();
        entries.push((HEADER_ACCEPT, ACCEPT_JSON));
        entries.push((HEADER_CLIENT_IDENTIFIER, self.client_identifier.as_str()));
        entries.push((HEADER_PRODUCT, self.product.as_str()));
        entries.push((HEADER_VERSION, self.version.as_str()));
        entries.push((HEADER_PLATFORM, self.platform.as_str()));
        if let Some(v) = &self.platform_version {
            entries.push((HEADER_PLATFORM_VERSION, v.as_str()));
        }
        entries.push((HEADER_DEVICE, self.device.as_str()));
        if let Some(v) = &self.device_name {
            entries.push((HEADER_DEVICE_NAME, v.as_str()));
        }
        entries.push((HEADER_PROVIDES, self.provides.as_str()));
        entries.push((HEADER_SYNC_VERSION, self.sync_version.as_str()));
        if let Some(t) = token {
            entries.push((HEADER_TOKEN, t.expose()));
        }
        proof {
            assert(entry_views(entries@) =~= all);
        }
        let mut h: Vec<(String, String)> = Vec::new();
        let mut i: usize = 0;
        while i < entries.len()
            invariant
                entry_views(entries@) == all,
                all == identity_headers(*self, tok),
                tok == match token {
                    Some(t) => Some(t@),
                    None => None,
                },
                all.len() == entries@.len(),
                i <= entries@.len(),
                pair_views(h@) == all.take(i as int),
                forall|j: int| 0 <= j < i ==> valid_header_value(#[trigger] all[j].1),
            decreases entries@.len() - i,
        {
            let (name, value) = entries[i];
            let res = set(&mut h, name, value);
            if res.is_err() {
                proof {
                    assert(!valid_header_value(all[i as int].1));
                    assert(!all_valid(all));
                }
                return Err(res.unwrap_err());
            }
            proof {
                assert(all.take(i + 1) =~= all.take(i as int).push(all[i as int]));
            }
            i += 1;
        }
        proof {
            assert(all.take(entries@.len() as int) =~= all);
        }
        Ok(h)
    }
}

/// Character views of `(name, value)` slice pairs.
pub open spec fn entry_views(v: Seq<(&str, &str)>) -> Seq<(Seq<char>, Seq<char>)> {
    v.map_values(|p: (&str, &str)| (p.0@, p.1@))
}

/// Check one header value and append the pair; the error message says
/// whether a non-ASCII or a control character was found.
fn set(map: &mut Vec<(String, String)>, name: &str, value: &str) -> (r: Result<()>)
    ensures
        r is Ok <==> valid_header_value(value@),
        r is Ok ==> pair_views(final(map)@) == pair_views(old(map)@).push((name@, value@)),
        r is Err ==> final(map)@ == old(map)@,
        r matches Err(e) ==> e is InvalidHeader,
{
    let cs = chars_of(value);
    let mut i: usize = 0;
    let mut ascii = true;
    let mut ok = true;
    while i < cs.len()
        invariant
            cs@ == value@,
            i <= cs@.len(),
            ascii == (forall|j: int| 0 <= j < i ==> is_ascii_char(#[trigger] cs@[j])),
            ok == (forall|j: int|
                0 <= j < i ==> is_ascii_char(#[trigger] cs@[j]) && is_header_char(cs@[j])),
        decreases cs@.len() - i,
    {
        let c = cs[i];
        let a = (c as u32) < 128;
        let hc = ((c as u32) >= 32 && (c as u32) != 127) || c == '\t';
        proof {
            if !(ascii && a) {
                if !a {
                    assert(!is_ascii_char(cs@[i as int]));
                }
            }
        }
        ascii = ascii && a;
        ok = ok && a && hc;
        i += 1;
    }
    if !ok {
        let mut msg = owned("value for \"");
        push_str(&mut msg, name);
        if !ascii {
            push_str(&mut msg, "\" contains non-ASCII characters");
        } else {
            push_str(&mut msg, "\" contains control characters or other invalid bytes");
        }
        return Err(Error::InvalidHeader(msg));
    }
    let ghost old_v = map@;
    map.push((owned(name), owned(value)));
    proof {
        assert(pair_views(map@) =~= pair_views(old_v).push((name@, value@)));
    }
    Ok(())
}

} // verus!
