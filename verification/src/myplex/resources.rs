//! Resources of a plex.tv account (servers, players): their decoding,
//! the preferred order of their connections and the connect options.

use vstd::prelude::*;

use crate::error::{Error, Result};
use crate::headers::{PlexIdentity, opt_view};
use crate::ids::{ClientIdentifier, MachineIdentifier, PlexToken};
use crate::text::{copy_string, owned, split_on, split_str, str_eq, trim_string, trimmed, views};

verus! {

broadcast use vstd::string::group_string_axioms;

/// One way to reach a resource.
#[derive(Debug, Clone)]
#[non_exhaustive]
pub struct ResourceConnection {
    /// `http` or `https`.
    pub protocol: String,
    /// Host address.
    pub address: String,
    /// TCP port.
    pub port: u16,
    /// Full base URI.
    pub uri: String,
    /// On the local network.
    pub local: bool,
    /// Through the plex.tv relay.
    pub relay: bool,
    /// An IPv6 address.
    pub ipv6: bool,
}

/// How a connection reaches the resource.
#[derive(Copy, Clone, PartialEq, Eq, Structural, Debug)]
pub enum Location {
    /// Local network.
    Local,
    /// Direct over the internet.
    Remote,
    /// Through the relay.
    Relay,
}

/// The location of a connection: relay first, then local, else remote.
pub open spec fn location_of(c: ResourceConnection) -> Location {
    if c.relay {
        Location::Relay
    } else if c.local {
        Location::Local
    } else {
        Location::Remote
    }
}

/// ASCII lower-casing of one character.
pub open spec fn ascii_lower(c: char) -> char {
    if 'A' <= c <= 'Z' {
        ((c as u32) + 32) as char
    } else {
        c
    }
}

/// `p` spells `https` in any ASCII case.
pub open spec fn is_https_spec(p: Seq<char>) -> bool {
    &&& p.len() == 5
    &&& forall|i: int| 0 <= i < 5 ==> ascii_lower(#[trigger] p[i]) == "https"@[i]
}

/// ASCII lower-casing.
fn lower(c: char) -> (r: char)
    ensures
        r == ascii_lower(c),
{
    if 'A' <= c && c <= 'Z' {
        let b = c as u8;
        assert(b as u32 == c as u32);
        (b + 32) as char
    } else {
        c
    }
}

/// A connection as decoded from the wire.
#[derive(Debug, Clone)]
pub struct ResourceConnectionDto {
    /// `protocol`.
    pub protocol: String,
    /// `address`.
    pub address: String,
    /// `port`.
    pub port: u16,
    /// `uri`.
    pub uri: String,
    /// `local`.
    pub local: Option<bool>,
    /// `relay`.
    pub relay: Option<bool>,
    /// `IPv6`.
    pub ipv6: Option<bool>,
}

/// An optional flag, absent meaning `false`.
pub open spec fn flag_or_false(b: Option<bool>) -> bool {
    match b {
        Some(v) => v,
        None => false,
    }
}

/// `c` is the connection `d` describes.
pub open spec fn connection_of(c: ResourceConnection, d: ResourceConnectionDto) -> bool {
    &&& c.protocol@ == d.protocol@ && c.address@ == d.address@ && c.port == d.port
    &&& c.uri@ == d.uri@
    &&& c.local == flag_or_false(d.local) && c.relay == flag_or_false(d.relay)
    &&& c.ipv6 == flag_or_false(d.ipv6)
}

impl ResourceConnection {
    /// The connection a wire entry describes; absent flags are `false`.
    pub fn from_dto(dto: ResourceConnectionDto) -> (c: Self)
        ensures
            connection_of(c, dto),
    {
        ResourceConnection {
            protocol: dto.protocol,
            address: dto.address,
            port: dto.port,
            uri: dto.uri,
            local: match dto.local {
                Some(b) => b,
                None => false,
            },
            relay: match dto.relay {
                Some(b) => b,
                None => false,
            },
            ipv6: match dto.ipv6 {
                Some(b) => b,
                None => false,
            },
        }
    }

    /// `true` when the protocol is `https`, in any ASCII case.
    pub fn is_https(&self) -> (b: bool)
        ensures
            b == is_https_spec(self.protocol@),
    {
        let cs = crate::text::chars_of(self.protocol.as_str());
        if cs.len() != 5 {
            return false;
        }
        let want = crate::text::chars_of("https");
        proof {
            reveal_strlit("https");
        }
        let mut i: usize = 0;
        while i < 5
            invariant
                i <= 5,
                cs@ == self.protocol@,
                cs@.len() == 5,
                want@ == "https"@,
                want@.len() == 5,
                forall|j: int| 0 <= j < i ==> ascii_lower(#[trigger] cs@[j]) == "https"@[j],
            decreases 5 - i,
        {
            if lower(cs[i]) != want[i] {
                return false;
            }
            i += 1;
        }
        true
    }

    /// Where the connection leads: relay, local or remote.
    pub fn location(&self) -> (l: Location)
        ensures
            l == location_of(*self),
    {
        if self.relay {
            Location::Relay
        } else if self.local {
            Location::Local
        } else {
            Location::Remote
        }
    }
}

/// A resource of the account.
#[derive(Clone)]
#[non_exhaustive]
pub struct MyPlexResource {
    /// Display name.
    pub name: String,
    /// Product (`Plex Media Server`, …).
    pub product: String,
    /// Product version.
    pub product_version: Option<String>,
    /// Platform.
    pub platform: Option<String>,
    /// Platform version.
    pub platform_version: Option<String>,
    /// Device.
    pub device: Option<String>,
    /// The resource's identifier.
    pub client_identifier: MachineIdentifier,
    /// Roles the resource provides (`server`, `player`, …).
    pub provides: Vec<String>,
    /// Owned by the signed-in account.
    pub owned: bool,
    /// Currently online.
    pub presence: bool,
    /// Requires https.
    pub https_required: bool,
    /// The public address matches the caller's.
    pub public_address_matches: bool,
    /// Reachable through the relay.
    pub relay: bool,
    /// DNS rebinding protection is on.
    pub dns_rebinding_protection: bool,
    /// Token to talk to the resource with.
    pub access_token: Option<PlexToken>,
    /// Public address.
    pub public_address: Option<String>,
    /// The ways to reach it.
    pub connections: Vec<ResourceConnection>,
}

/// A resource entry as decoded from the wire.
#[derive(Clone)]
pub struct MyPlexResourceDto {
    /// `name`.
    pub name: String,
    /// `product`.
    pub product: String,
    /// `productVersion`.
    pub product_version: Option<String>,
    /// `platform`.
    pub platform: Option<String>,
    /// `platformVersion`.
    pub platform_version: Option<String>,
    /// `device`.
    pub device: Option<String>,
    /// `clientIdentifier`.
    pub client_identifier: String,
    /// `provides` — comma-separated roles.
    pub provides: String,
    /// `owned`.
    pub owned: Option<bool>,
    /// `presence`.
    pub presence: Option<bool>,
    /// `httpsRequired`.
    pub https_required: Option<bool>,
    /// `publicAddressMatches`.
    pub public_address_matches: Option<bool>,
    /// `relay`.
    pub relay: Option<bool>,
    /// `dnsRebindingProtection`.
    pub dns_rebinding_protection: Option<bool>,
    /// `publicAddress`.
    pub public_address: Option<String>,
    /// `accessToken`.
    pub access_token: Option<String>,
    /// `connections`.
    pub connections: Vec<ResourceConnectionDto>,
}

/// The non-empty entries of a list of strings, in order.
pub open spec fn non_empty(v: Seq<Seq<char>>) -> Seq<Seq<char>>
    decreases v.len(),
{
    if v.len() == 0 {
        v
    } else if v.last().len() == 0 {
        non_empty(v.drop_last())
    } else {
        non_empty(v.drop_last()).push(v.last())
    }
}

/// The roles of a `provides` string: split at `,`, each trimmed, empty
/// ones dropped.
pub open spec fn provides_list(s: Seq<char>) -> Seq<Seq<char>> {
    non_empty(split_on(s, ',').map_values(|p: Seq<char>| trimmed(p)))
}

/// Split a `provides` string into its roles.
pub fn split_provides(s: &str) -> (v: Vec<String>)
    ensures
        views(v@) == provides_list(s@),
{
    let parts = split_str(s, ',');
    let ghost tr = split_on(s@, ',').map_values(|p: Seq<char>| trimmed(p));
    let mut out: Vec<String> = Vec::new();
    let mut i: usize = 0;
    while i < parts.len()
        invariant
            i <= parts@.len(),
            views(parts@) == split_on(s@, ','),
            tr == split_on(s@, ',').map_values(|p: Seq<char>| trimmed(p)),
            tr.len() == parts@.len(),
            views(out@) == non_empty(tr.take(i as int)),
        decreases parts@.len() - i,
    {
        let t = trim_string(parts[i].as_str());
        proof {
            assert(views(parts@)[i as int] == parts@[i as int]@);
            assert(tr[i as int] == t@);
            assert(tr.take(i + 1).drop_last() =~= tr.take(i as int));
            assert(tr.take(i + 1).last() == t@);
        }
        if !t.as_str().is_empty() {
            out.push(t);
            proof {
                assert(views(out@) =~= non_empty(tr.take(i as int)).push(tr[i as int]));
            }
        }
        i += 1;
    }
    proof {
        assert(tr.take(parts@.len() as int) =~= tr);
    }
    out
}

/// The preferred connections in one (location, scheme) class.
pub open spec fn class_uris(cs: Seq<ResourceConnection>, loc: Location, https: bool) -> Seq<
    Seq<char>,
>
    decreases cs.len(),
{
    if cs.len() == 0 {
        Seq::empty()
    } else {
        let c = cs.last();
        let rest = class_uris(cs.drop_last(), loc, https);
        if location_of(c) == loc && is_https_spec(c.protocol@) == https {
            rest.push(c.uri@)
        } else {
            rest
        }
    }
}

/// One class in the preference order, or nothing when the scheme filter
/// or the ownership gate rules it out.
pub open spec fn class_pass(
    cs: Seq<ResourceConnection>,
    owned: bool,
    ssl: Option<bool>,
    loc: Location,
    https: bool,
) -> Seq<Seq<char>> {
    if (ssl matches Some(w) && w != https) || (loc == Location::Local && !owned) {
        Seq::empty()
    } else {
        class_uris(cs, loc, https)
    }
}

/// The preference order: local, then remote, then relay; within each,
/// https before http; only the scheme `ssl` asks for, when it asks;
/// local connections only for owned resources.
pub open spec fn preferred_spec(cs: Seq<ResourceConnection>, owned: bool, ssl: Option<bool>) -> Seq<
    Seq<char>,
> {
    class_pass(cs, owned, ssl, Location::Local, true) + class_pass(
        cs,
        owned,
        ssl,
        Location::Local,
        false,
    ) + class_pass(cs, owned, ssl, Location::Remote, true) + class_pass(
        cs,
        owned,
        ssl,
        Location::Remote,
        false,
    ) + class_pass(cs, owned, ssl, Location::Relay, true) + class_pass(
        cs,
        owned,
        ssl,
        Location::Relay,
        false,
    )
}

/// The preference order on connections, as an ordered list of URIs.
pub open spec fn has_role(provides: Seq<String>, role: Seq<char>) -> bool {
    exists|i: int| 0 <= i < provides.len() && #[trigger] provides[i]@ == role
}

impl MyPlexResource {
    /// `true` when one of the roles is `server`.
    pub fn is_server(&self) -> (b: bool)
        ensures
            b == has_role(self.provides@, "server"@),
    {
        let mut i: usize = 0;
        while i < self.provides.len()
            invariant
                i <= self.provides@.len(),
                forall|j: int| 0 <= j < i ==> #[trigger] self.provides@[j]@ != "server"@,
            decreases self.provides@.len() - i,
        {
            if str_eq(self.provides[i].as_str(), "server") {
                return true;
            }
            i += 1;
        }
        false
    }

    /// Append the URIs of one class.
    fn push_class(&self, out: &mut Vec<String>, ssl: Option<bool>, loc: Location, https: bool)
        ensures
            views(final(out)@) == views(old(out)@) + class_pass(
                self.connections@,
                self.owned,
                ssl,
                loc,
                https,
            ),
    {
        let ghost start = views(out@);
        if let Some(want) = ssl {
            if want != https {
                proof {
                    assert(views(out@) =~= start + class_pass(
                        self.connections@,
                        self.owned,
                        ssl,
                        loc,
                        https,
                    ));
                }
                return;
            }
        }
        if loc == Location::Local && !self.owned {
            proof {
                assert(views(out@) =~= start + class_pass(
                    self.connections@,
                    self.owned,
                    ssl,
                    loc,
                    https,
                ));
            }
            return;
        }
        let mut i: usize = 0;
        while i < self.connections.len()
            invariant
                i <= self.connections@.len(),
                views(out@) == start + class_uris(self.connections@.take(i as int), loc, https),
            decreases self.connections@.len() - i,
        {
            let c = &self.connections[i];
            proof {
                assert(self.connections@.take(i + 1).drop_last() =~= self.connections@.take(
                    i as int,
                ));
                assert(self.connections@.take(i + 1).last() == *c);
            }
            let ghost before = out@;
            if c.location() == loc && c.is_https() == https {
                let u = copy_string(&c.uri);
                out.push(u);
                proof {
                    assert(out@ == before.push(u));
                    assert(views(out@) =~= views(before).push(c.uri@));
                    assert(views(out@) =~= start + class_uris(
                        self.connections@.take(i + 1),
                        loc,
                        https,
                    ));
                }
            } else {
                proof {
                    assert(class_uris(self.connections@.take(i + 1), loc, https) == class_uris(
                        self.connections@.take(i as int),
                        loc,
                        https,
                    ));
                }
            }
            i += 1;
        }
        proof {
            assert(self.connections@.take(self.connections@.len() as int) =~= self.connections@);
        }
    }

    /// Connection URIs in preference order: local, remote, relay; https
    /// before http within each; only https (or only http) when `ssl`
    /// says so; local URIs only for owned resources.
    pub fn preferred_connections(&self, ssl: Option<bool>) -> (v: Vec<String>)
        ensures
            views(v@) == preferred_spec(self.connections@, self.owned, ssl),
    {
        let mut out: Vec<String> = Vec::new();
        self.push_class(&mut out, ssl, Location::Local, true);
        self.push_class(&mut out, ssl, Location::Local, false);
        self.push_class(&mut out, ssl, Location::Remote, true);
        self.push_class(&mut out, ssl, Location::Remote, false);
        self.push_class(&mut out, ssl, Location::Relay, true);
        self.push_class(&mut out, ssl, Location::Relay, false);
        proof {
            assert(views(out@) =~= preferred_spec(self.connections@, self.owned, ssl));
        }
        out
    }

    /// The resource a wire entry describes. Absent flags are `false`;
    /// an empty access token counts as none. Fails with
    /// [`Error::Config`] exactly when the client identifier is empty.
    pub fn from_dto(dto: MyPlexResourceDto) -> (r: Result<Self>)
        ensures
            r is Ok <==> dto.client_identifier@.len() > 0,
            r matches Err(e) ==> (e matches Error::Config(m) && m@
                == "machine identifier must not be empty"@),
            r matches Ok(res) ==> {
                &&& res.name@ == dto.name@ && res.product@ == dto.product@
                &&& opt_view(res.product_version) == opt_view(dto.product_version)
                &&& opt_view(res.platform) == opt_view(dto.platform)
                &&& opt_view(res.platform_version) == opt_view(dto.platform_version)
                &&& opt_view(res.device) == opt_view(dto.device)
                &&& res.client_identifier@ == dto.client_identifier@
                &&& views(res.provides@) == provides_list(dto.provides@)
                &&& res.owned == flag_or_false(dto.owned)
                &&& res.presence == flag_or_false(dto.presence)
                &&& res.https_required == flag_or_false(dto.https_required)
                &&& res.public_address_matches == flag_or_false(dto.public_address_matches)
                &&& res.relay == flag_or_false(dto.relay)
                &&& res.dns_rebinding_protection == flag_or_false(dto.dns_rebinding_protection)
                &&& opt_view(res.public_address) == opt_view(dto.public_address)
                &&& match dto.access_token {
                    Some(t) => if t@.len() > 0 {
                        res.access_token matches Some(k) && k@ == t@
                    } else {
                        res.access_token is None
                    },
                    None => res.access_token is None,
                }
                &&& res.connections@.len() == dto.connections@.len()
                &&& forall|i: int|
                    0 <= i < dto.connections@.len() ==> connection_of(
                        #[trigger] res.connections@[i],
                        dto.connections@[i],
                    )
            },
    {
        let client_identifier = MachineIdentifier::new(dto.client_identifier.as_str())?;
        let access_token = match &dto.access_token {
            Some(t) => if t.as_str().is_empty() {
                None
            } else {
                Some(PlexToken::new(t.as_str())?)
            },
            None => None,
        };
        let provides = split_provides(dto.provides.as_str());
        let ghost dconns = dto.connections@;
        let mut connections: Vec<ResourceConnection> = Vec::new();
        for c in it: dto.connections.into_iter()
            invariant
                it.seq() == dconns,
                connections@.len() == it.index(),
                forall|i: int|
                    0 <= i < it.index() ==> connection_of(#[trigger] connections@[i], dconns[i]),
        {
            connections.push(ResourceConnection::from_dto(c));
        }
        Ok(
            MyPlexResource {
                name: dto.name,
                product: dto.product,
                product_version: dto.product_version,
                platform: dto.platform,
                platform_version: dto.platform_version,
                device: dto.device,
                client_identifier,
                provides,
                owned: match dto.owned {
                    Some(b) => b,
                    None => false,
                },
                presence: match dto.presence {
                    Some(b) => b,
                    None => false,
                },
                https_required: match dto.https_required {
                    Some(b) => b,
                    None => false,
                },
                public_address_matches: match dto.public_address_matches {
                    Some(b) => b,
                    None => false,
                },
                relay: match dto.relay {
                    Some(b) => b,
                    None => false,
                },
                dns_rebinding_protection: match dto.dns_rebinding_protection {
                    Some(b) => b,
                    None => false,
                },
                public_address: dto.public_address,
                access_token,
                connections,
            },
        )
    }

    /// What a connection attempt needs: the URIs to try, in preference
    /// order, and the token. Fails with [`Error::NotFound`] when no
    /// connection qualifies, then when the resource has no token.
    pub fn connect_plan(&self, ssl: Option<bool>) -> (r: Result<(Vec<String>, PlexToken)>)
        ensures
            preferred_spec(self.connections@, self.owned, ssl).len() == 0 ==> (r matches Err(
                Error::NotFound { resource },
            ) && resource@ == "no usable connections for resource "@ + seq!['\''] + self.name@
                + seq!['\'']),
            preferred_spec(self.connections@, self.owned, ssl).len() > 0 ==> match self.access_token {
                None => r matches Err(Error::NotFound { resource }) && resource@ == "resource "@
                    + seq!['\''] + self.name@ + seq!['\''] + " has no access token to connect with"@,
                Some(t) => r matches Ok(p) && views(p.0@) == preferred_spec(
                    self.connections@,
                    self.owned,
                    ssl,
                ) && p.1@ == t@,
            },
    {
        let urls = self.preferred_connections(ssl);
        if urls.len() == 0 {
            let mut msg = owned("no usable connections for resource ");
            crate::text::push_char(&mut msg, '\'');
            crate::text::push_str(&mut msg, self.name.as_str());
            crate::text::push_char(&mut msg, '\'');
            return Err(Error::NotFound { resource: msg });
        }
        match &self.access_token {
            Some(t) => Ok((urls, t.duplicate())),
            None => {
                let mut msg = owned("resource ");
                crate::text::push_char(&mut msg, '\'');
                crate::text::push_str(&mut msg, self.name.as_str());
                crate::text::push_char(&mut msg, '\'');
                crate::text::push_str(&mut msg, " has no access token to connect with");
                Err(Error::NotFound { resource: msg })
            },
        }
    }
}

/// `u` is the URI of a connection in `cs` at location `loc` whose
/// scheme is https exactly when `https`.
pub open spec fn uri_of_class(u: Seq<char>, cs: Seq<ResourceConnection>, loc: Location, https: bool) -> bool {
    exists|j: int|
        0 <= j < cs.len() && (#[trigger] cs[j]).uri@ == u && location_of(cs[j]) == loc
            && is_https_spec(cs[j].protocol@) == https
}

/// Every URI of a class comes from a connection of that class.
proof fn lemma_class_uris_sound(cs: Seq<ResourceConnection>, loc: Location, https: bool)
    ensures
        forall|i: int|
            0 <= i < class_uris(cs, loc, https).len() ==> uri_of_class(
                #[trigger] class_uris(cs, loc, https)[i],
                cs,
                loc,
                https,
            ),
    decreases cs.len(),
{
    if cs.len() > 0 {
        let rest = cs.drop_last();
        lemma_class_uris_sound(rest, loc, https);
        let r = class_uris(cs, loc, https);
        assert forall|i: int| 0 <= i < r.len() implies uri_of_class(#[trigger] r[i], cs, loc, https) by {
            let rr = class_uris(rest, loc, https);
            if i < rr.len() {
                assert(r[i] == rr[i]);
                assert(uri_of_class(rr[i], rest, loc, https));
                let j = choose|j: int|
                    0 <= j < rest.len() && (#[trigger] rest[j]).uri@ == rr[i] && location_of(rest[j])
                        == loc && is_https_spec(rest[j].protocol@) == https;
                assert(cs[j] == rest[j]);
            } else {
                assert(cs[cs.len() - 1] == cs.last());
            }
        }
    }
}

/// `u` is the URI of a connection in `cs` that the filters admit: https
/// when `ssl` is `Some(true)`, plain http when `Some(false)`, and not
/// local unless the resource is owned.
pub open spec fn admitted_uri(u: Seq<char>, cs: Seq<ResourceConnection>, owned: bool, ssl: Option<bool>) -> bool {
    exists|j: int|
        0 <= j < cs.len() && (#[trigger] cs[j]).uri@ == u && (ssl matches Some(w)
            ==> is_https_spec(cs[j].protocol@) == w) && (!owned ==> location_of(cs[j])
            != Location::Local)
}

/// What a connection attempt may use: every URI in the preferred order
/// is the URI of one of the resource's connections, over https when
/// `ssl` is `Some(true)` and over plain http when it is `Some(false)`,
/// and never a local one when the resource is not owned.
pub proof fn law_preferred_connections_respect_filters(
    cs: Seq<ResourceConnection>,
    owned: bool,
    ssl: Option<bool>,
)
    ensures
        forall|i: int|
            0 <= i < preferred_spec(cs, owned, ssl).len() ==> admitted_uri(
                #[trigger] preferred_spec(cs, owned, ssl)[i],
                cs,
                owned,
                ssl,
            ),
{
    lemma_class_uris_sound(cs, Location::Local, true);
    lemma_class_uris_sound(cs, Location::Local, false);
    lemma_class_uris_sound(cs, Location::Remote, true);
    lemma_class_uris_sound(cs, Location::Remote, false);
    lemma_class_uris_sound(cs, Location::Relay, true);
    lemma_class_uris_sound(cs, Location::Relay, false);
    let p = preferred_spec(cs, owned, ssl);
    let a = class_pass(cs, owned, ssl, Location::Local, true);
    let b = class_pass(cs, owned, ssl, Location::Local, false);
    let c = class_pass(cs, owned, ssl, Location::Remote, true);
    let d = class_pass(cs, owned, ssl, Location::Remote, false);
    let e = class_pass(cs, owned, ssl, Location::Relay, true);
    let f = class_pass(cs, owned, ssl, Location::Relay, false);
    assert forall|i: int| 0 <= i < p.len() implies admitted_uri(#[trigger] p[i], cs, owned, ssl) by {
        let (loc, https, k) = if i < a.len() {
            (Location::Local, true, i)
        } else if i < a.len() + b.len() {
            (Location::Local, false, i - a.len())
        } else if i < a.len() + b.len() + c.len() {
            (Location::Remote, true, i - a.len() - b.len())
        } else if i < a.len() + b.len() + c.len() + d.len() {
            (Location::Remote, false, i - a.len() - b.len() - c.len())
        } else if i < a.len() + b.len() + c.len() + d.len() + e.len() {
            (Location::Relay, true, i - a.len() - b.len() - c.len() - d.len())
        } else {
            (Location::Relay, false, i - a.len() - b.len() - c.len() - d.len() - e.len())
        };
        let part = class_pass(cs, owned, ssl, loc, https);
        assert(p[i] == part[k]);
        assert(part.len() > 0);
        assert(part == class_uris(cs, loc, https));
        assert(uri_of_class(part[k], cs, loc, https));
        let j = choose|j: int|
            0 <= j < cs.len() && (#[trigger] cs[j]).uri@ == part[k] && location_of(cs[j]) == loc
                && is_https_spec(cs[j].protocol@) == https;
        assert(cs[j].uri@ == p[i]);
    }
}

/// Every connection of a class has its URI among the class's URIs.
proof fn lemma_class_uris_complete(cs: Seq<ResourceConnection>, j: int)
    requires
        0 <= j < cs.len(),
    ensures
        class_uris(cs, location_of(cs[j]), is_https_spec(cs[j].protocol@)).contains(cs[j].uri@),
    decreases cs.len(),
{
    let loc = location_of(cs[j]);
    let h = is_https_spec(cs[j].protocol@);
    let rest = class_uris(cs.drop_last(), loc, h);
    if j < cs.len() - 1 {
        assert(cs.drop_last()[j] == cs[j]);
        lemma_class_uris_complete(cs.drop_last(), j);
        let k = choose|k: int| 0 <= k < rest.len() && rest[k] == cs[j].uri@;
        let whole = class_uris(cs, loc, h);
        assert(whole[k] == cs[j].uri@);
    } else {
        let whole = class_uris(cs, loc, h);
        assert(whole == rest.push(cs[j].uri@));
        assert(whole[rest.len() as int] == cs[j].uri@);
    }
}

/// Nothing a connection attempt may use is left out: the URI of every
/// connection over the scheme `ssl` asks for (any scheme when it asks
/// for none) is in the preferred order, local ones included when the
/// resource is owned.
pub proof fn law_preferred_connections_complete(
    cs: Seq<ResourceConnection>,
    owned: bool,
    ssl: Option<bool>,
    j: int,
)
    requires
        0 <= j < cs.len(),
        ssl matches Some(w) ==> is_https_spec(cs[j].protocol@) == w,
        owned || location_of(cs[j]) != Location::Local,
    ensures
        preferred_spec(cs, owned, ssl).contains(cs[j].uri@),
{
    let loc = location_of(cs[j]);
    let h = is_https_spec(cs[j].protocol@);
    lemma_class_uris_complete(cs, j);
    let part = class_pass(cs, owned, ssl, loc, h);
    assert(part == class_uris(cs, loc, h));
    let k = choose|k: int| 0 <= k < part.len() && part[k] == cs[j].uri@;
    let a = class_pass(cs, owned, ssl, Location::Local, true);
    let b = class_pass(cs, owned, ssl, Location::Local, false);
    let c = class_pass(cs, owned, ssl, Location::Remote, true);
    let d = class_pass(cs, owned, ssl, Location::Remote, false);
    let e = class_pass(cs, owned, ssl, Location::Relay, true);
    let f = class_pass(cs, owned, ssl, Location::Relay, false);
    let p = preferred_spec(cs, owned, ssl);
    assert(p == a + b + c + d + e + f);
    let off: int = if loc == Location::Local && h {
        0
    } else if loc == Location::Local {
        a.len() as int
    } else if loc == Location::Remote && h {
        (a.len() + b.len()) as int
    } else if loc == Location::Remote {
        (a.len() + b.len() + c.len()) as int
    } else if h {
        (a.len() + b.len() + c.len() + d.len()) as int
    } else {
        (a.len() + b.len() + c.len() + d.len() + e.len()) as int
    };
    assert(p[off + k] == part[k]);
}

/// Default per-attempt timeout of a connection probe: 8 s, in
/// nanoseconds.
pub const DEFAULT_PER_ATTEMPT_TIMEOUT: u64 = 8_000_000_000;

/// Options of a connection attempt.
#[derive(Debug, Clone)]
#[non_exhaustive]
pub struct ConnectOptions {
    /// Only https (`Some(true)`), only http (`Some(false)`), or both.
    pub ssl: Option<bool>,
    /// Timeout of each probe, in nanoseconds.
    pub per_attempt_timeout: u64,
    /// Identifier the probes announce.
    pub client_identifier: ClientIdentifier,
    /// Identity headers the probes send.
    pub identity: Option<PlexIdentity>,
}

impl ConnectOptions {
    /// Defaults: both schemes, 8 s per attempt, no identity override.
    pub fn new(client_identifier: ClientIdentifier) -> (o: Self)
        ensures
            o.ssl is None && o.per_attempt_timeout == DEFAULT_PER_ATTEMPT_TIMEOUT
                && o.client_identifier == client_identifier && o.identity is None,
    {
        ConnectOptions {
            ssl: None,
            per_attempt_timeout: DEFAULT_PER_ATTEMPT_TIMEOUT,
            client_identifier,
            identity: None,
        }
    }

    /// Restrict the scheme.
    pub fn with_ssl(self, ssl: Option<bool>) -> (r: Self)
        ensures
            r == (ConnectOptions { ssl, ..self }),
    {
        ConnectOptions { ssl, ..self }
    }

    /// Set the per-attempt timeout (nanoseconds).
    pub fn with_per_attempt_timeout(self, timeout: u64) -> (r: Self)
        ensures
            r == (ConnectOptions { per_attempt_timeout: timeout, ..self }),
    {
        ConnectOptions { per_attempt_timeout: timeout, ..self }
    }

    /// Set the announced identifier.
    pub fn with_client_identifier(self, id: ClientIdentifier) -> (r: Self)
        ensures
            r == (ConnectOptions { client_identifier: id, ..self }),
    {
        ConnectOptions { client_identifier: id, ..self }
    }

    /// Set the identity headers.
    pub fn with_identity(self, identity: PlexIdentity) -> (r: Self)
        ensures
            r == (ConnectOptions { identity: Some(identity), ..self }),
    {
        ConnectOptions { identity: Some(identity), ..self }
    }
}

} // verus!
