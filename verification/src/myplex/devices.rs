//! Devices registered to a plex.tv account.

use vstd::prelude::*;

use crate::error::{Error, Result};
use crate::headers::opt_view;
use crate::ids::{ClientIdentifier, PlexToken};
use crate::myplex::resources::{provides_list, split_provides};
use crate::text::{drop_empty, non_empty_view, str_eq, views};
use crate::time::{epoch_seconds_of, parse_epoch_seconds};

verus! {

broadcast use vstd::string::group_string_axioms;

/// A device of the account. Timestamps are epoch seconds.
#[derive(Clone)]
#[non_exhaustive]
pub struct MyPlexDevice {
    /// Device id.
    pub id: String,
    /// Device name.
    pub name: Option<String>,
    /// Product.
    pub product: String,
    /// Product version.
    pub product_version: Option<String>,
    /// Platform.
    pub platform: Option<String>,
    /// Platform version.
    pub platform_version: Option<String>,
    /// Device.
    pub device: Option<String>,
    /// Model.
    pub model: Option<String>,
    /// Vendor.
    pub vendor: Option<String>,
    /// Roles the device provides.
    pub provides: Vec<String>,
    /// The device's client identifier.
    pub client_identifier: ClientIdentifier,
    /// Version.
    pub version: Option<String>,
    /// Device token.
    pub token: Option<PlexToken>,
    /// Public address.
    pub public_address: Option<String>,
    /// Screen resolution.
    pub screen_resolution: Option<String>,
    /// Screen density.
    pub screen_density: Option<String>,
    /// Registration time (epoch seconds).
    pub created_at: Option<i64>,
    /// Last contact (epoch seconds).
    pub last_seen_at: Option<i64>,
    /// Connection URIs.
    pub connections: Vec<String>,
}

/// `true` when one of the roles is `role`.
pub open spec fn provides_role(provides: Seq<String>, role: Seq<char>) -> bool {
    exists|i: int| 0 <= i < provides.len() && #[trigger] provides[i]@ == role
}

/// Whether `provides` holds `role`.
fn has_role(provides: &Vec<String>, role: &str) -> (b: bool)
    ensures
        b == provides_role(provides@, role@),
{
    let mut i: usize = 0;
    while i < provides.len()
        invariant
            i <= provides@.len(),
            forall|j: int| 0 <= j < i ==> #[trigger] provides@[j]@ != role@,
        decreases provides@.len() - i,
    {
        if str_eq(provides[i].as_str(), role) {
            return true;
        }
        i += 1;
    }
    false
}

impl MyPlexDevice {
    /// `true` when the device provides `server`.
    pub fn is_server(&self) -> (b: bool)
        ensures
            b == provides_role(self.provides@, "server"@),
    {
        has_role(&self.provides, "server")
    }

    /// `true` when the device provides `player`.
    pub fn is_player(&self) -> (b: bool)
        ensures
            b == provides_role(self.provides@, "player"@),
    {
        has_role(&self.provides, "player")
    }
}

/// A `<Device>` element as decoded from the wire.
#[derive(Clone)]
pub struct DeviceDto {
    /// `id`.
    pub id: String,
    /// `name`.
    pub name: Option<String>,
    /// `product`.
    pub product: String,
    /// `productVersion`.
    pub product_version: Option<String>,
    /// `platform`.
    pub platform: Option<String>,
    /// `platformVersion`.
    pub platform_version: Option<String>,
    /// `device`.
    pub device: Option<String>,
    /// `model`.
    pub model: Option<String>,
    /// `vendor`.
    pub vendor: Option<String>,
    /// `provides`.
    pub provides: String,
    /// `clientIdentifier`.
    pub client_identifier: String,
    /// `version`.
    pub version: Option<String>,
    /// `token`.
    pub token: Option<String>,
    /// `publicAddress`.
    pub public_address: Option<String>,
    /// `screenResolution`.
    pub screen_resolution: Option<String>,
    /// `screenDensity`.
    pub screen_density: Option<String>,
    /// `createdAt`.
    pub created_at: Option<String>,
    /// `lastSeenAt`.
    pub last_seen_at: Option<String>,
    /// `uri` of each `<Connection>`.
    pub connections: Vec<String>,
}

/// The non-empty entries of a list, in order.
pub open spec fn non_empty_strings(v: Seq<String>) -> Seq<Seq<char>>
    decreases v.len(),
{
    if v.len() == 0 {
        Seq::empty()
    } else if v.last()@.len() == 0 {
        non_empty_strings(v.drop_last())
    } else {
        non_empty_strings(v.drop_last()).push(v.last()@)
    }
}

/// A timestamp attribute as epoch seconds.
pub open spec fn opt_epoch(raw: Option<String>) -> Option<i64> {
    match raw {
        Some(s) => epoch_seconds_of(s@),
        None => None,
    }
}

impl DeviceDto {
    /// The device this element describes. Fails with
    /// [`crate::error::Error::Config`] exactly when the client
    /// identifier is empty; an empty token counts as none, empty
    /// connection URIs are dropped, and the roles are the trimmed,
    /// non-empty comma-separated entries of `provides`.
    pub fn into_domain(self) -> (r: Result<MyPlexDevice>)
        ensures
            r is Ok <==> self.client_identifier@.len() > 0,
            r matches Err(e) ==> (e matches Error::Config(m) && m@
                == "client identifier must not be empty"@),
            r matches Ok(d) ==> {
                &&& d.id@ == self.id@ && opt_view(d.name) == opt_view(self.name)
                &&& d.product@ == self.product@
                &&& opt_view(d.product_version) == opt_view(self.product_version)
                &&& opt_view(d.platform) == opt_view(self.platform)
                &&& opt_view(d.platform_version) == opt_view(self.platform_version)
                &&& opt_view(d.device) == opt_view(self.device)
                &&& opt_view(d.model) == opt_view(self.model)
                &&& opt_view(d.vendor) == opt_view(self.vendor)
                &&& views(d.provides@) == provides_list(self.provides@)
                &&& d.client_identifier@ == self.client_identifier@
                &&& opt_view(d.version) == opt_view(self.version)
                &&& match non_empty_view(self.token) {
                    Some(t) => d.token matches Some(k) && k@ == t,
                    None => d.token is None,
                }
                &&& opt_view(d.public_address) == opt_view(self.public_address)
                &&& opt_view(d.screen_resolution) == opt_view(self.screen_resolution)
                &&& opt_view(d.screen_density) == opt_view(self.screen_density)
                &&& d.created_at == opt_epoch(self.created_at)
                &&& d.last_seen_at == opt_epoch(self.last_seen_at)
                &&& views(d.connections@) == non_empty_strings(self.connections@)
            },
    {
        let client_identifier = ClientIdentifier::new(self.client_identifier.as_str())?;
        let token = match drop_empty(self.token) {
            Some(t) => Some(PlexToken::new(t.as_str())?),
            None => None,
        };
        let provides = split_provides(self.provides.as_str());
        let created_at = match &self.created_at {
            Some(s) => parse_epoch_seconds(Some(s.as_str())),
            None => None,
        };
        let last_seen_at = match &self.last_seen_at {
            Some(s) => parse_epoch_seconds(Some(s.as_str())),
            None => None,
        };
        let ghost src = self.connections@;
        let mut connections: Vec<String> = Vec::new();
        for c in it: self.connections.into_iter()
            invariant
                it.seq() == src,
                views(connections@) == non_empty_strings(src.take(it.index() as int)),
        {
            proof {
                assert(src.take(it.index() + 1).drop_last() =~= src.take(it.index() as int));
                assert(src.take(it.index() + 1).last() == c);
            }
            if !c.as_str().is_empty() {
                let ghost before = connections@;
                connections.push(c);
                proof {
                    assert(views(connections@) =~= views(before).push(c@));
                }
            }
        }
        proof {
            assert(src.take(src.len() as int) =~= src);
        }
        Ok(
            MyPlexDevice {
                id: self.id,
                name: self.name,
                product: self.product,
                product_version: self.product_version,
                platform: self.platform,
                platform_version: self.platform_version,
                device: self.device,
                model: self.model,
                vendor: self.vendor,
                provides,
                client_identifier,
                version: self.version,
                token,
                public_address: self.public_address,
                screen_resolution: self.screen_resolution,
                screen_density: self.screen_density,
                created_at,
                last_seen_at,
                connections,
            },
        )
    }
}

} // verus!
