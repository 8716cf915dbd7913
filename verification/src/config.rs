//! Client-side configuration shared by every HTTP request.
//!
//! [`ClientConfig`] bundles identity, timeouts and retry policy. It is
//! built through [`ClientConfig::builder`] and [`ClientConfigBuilder::build`],
//! which enforces the invariants: both timeouts positive, at most
//! [`RETRY_HARD_CAP`] retries, and a retry ceiling no lower than the base
//! delay. All durations are in nanoseconds.

use vstd::prelude::*;

use crate::error::{debug_duration, duration_debug, Error, Result};
use crate::headers::PlexIdentity;
use crate::ids::{ClientIdentifier, PlexToken};
use crate::text::{copy_string, debug_str, dec_chars, owned, push_char, push_dec, push_str, str_debug};

verus! {

/// Default per-request timeout (30 s), in nanoseconds.
pub const DEFAULT_REQUEST_TIMEOUT: u64 = 30_000_000_000;

/// Default connect timeout (10 s), in nanoseconds.
pub const DEFAULT_CONNECT_TIMEOUT: u64 = 10_000_000_000;

/// Default maximum retry attempts (0 = only the first attempt).
pub const DEFAULT_MAX_RETRIES: u32 = 3;

/// Default base backoff between retries (250 ms), in nanoseconds.
pub const DEFAULT_RETRY_BASE_DELAY: u64 = 250_000_000;

/// Default ceiling on a single retry delay (10 s), in nanoseconds.
pub const DEFAULT_RETRY_MAX_DELAY: u64 = 10_000_000_000;

/// Hard upper bound on `max_retries`.
pub const RETRY_HARD_CAP: u32 = 8;

/// Frozen client configuration.
#[derive(Clone)]
pub struct ClientConfig {
    /// Identity headers sent on every request.
    pub identity: PlexIdentity,
    /// Optional auth token; absent until sign-in completes.
    pub token: Option<PlexToken>,
    /// Per-request total timeout, in nanoseconds.
    pub request_timeout: u64,
    /// Connect-only timeout, in nanoseconds.
    pub connect_timeout: u64,
    /// Maximum retry attempts (excluding the first try).
    pub max_retries: u32,
    /// Base delay for the exponential backoff, in nanoseconds.
    pub retry_base_delay: u64,
    /// Ceiling on a single retry delay, in nanoseconds.
    pub retry_max_delay: u64,
    /// Optional User-Agent override.
    pub user_agent: Option<String>,
}

/// The User-Agent a configuration sends: the override when set,
/// otherwise `{product}/{version} ({platform})`.
pub open spec fn spec_user_agent(c: ClientConfig) -> Seq<char> {
    match c.user_agent {
        Some(ua) => ua@,
        None => c.identity.product@ + seq!['/'] + c.identity.version@ + seq![' ', '(']
            + c.identity.platform@ + seq![')'],
    }
}

/// The configuration invariants [`ClientConfigBuilder::build`] enforces.
pub open spec fn config_valid(c: ClientConfig) -> bool {
    &&& c.request_timeout > 0
    &&& c.connect_timeout > 0
    &&& c.max_retries <= RETRY_HARD_CAP
    &&& c.retry_max_delay >= c.retry_base_delay
}

/// The message of the first validation rule `c` breaks.
pub open spec fn build_error_message(c: ClientConfig) -> Seq<char> {
    if c.request_timeout == 0 {
        "request_timeout must be > 0"@
    } else if c.connect_timeout == 0 {
        "connect_timeout must be > 0"@
    } else if c.max_retries > RETRY_HARD_CAP {
        "max_retries "@ + dec_chars(c.max_retries as nat) + " exceeds hard cap "@ + dec_chars(
            RETRY_HARD_CAP as nat,
        )
    } else {
        "retry_max_delay must be >= retry_base_delay"@
    }
}

impl ClientConfig {
    /// Start a builder with the default timeouts and retry policy and a
    /// default identity for `client_identifier` on `platform`.
    pub fn builder(client_identifier: ClientIdentifier, platform: &str) -> (b: ClientConfigBuilder)
        ensures
            b.draft().identity.client_identifier == client_identifier,
            b.draft().identity.platform@ == platform@,
            b.draft().token is None,
            b.draft().request_timeout == DEFAULT_REQUEST_TIMEOUT,
            b.draft().connect_timeout == DEFAULT_CONNECT_TIMEOUT,
            b.draft().max_retries == DEFAULT_MAX_RETRIES,
            b.draft().retry_base_delay == DEFAULT_RETRY_BASE_DELAY,
            b.draft().retry_max_delay == DEFAULT_RETRY_MAX_DELAY,
            b.draft().user_agent is None,
            b.draft().identity.product@ == crate::headers::DEFAULT_PRODUCT@,
            b.draft().identity.version@ == crate::VERSION@,
            b.draft().identity.platform_version is None,
            b.draft().identity.device@ == crate::headers::DEFAULT_DEVICE@,
            b.draft().identity.device_name is None,
            b.draft().identity.provides@ == crate::headers::DEFAULT_PROVIDES@,
            b.draft().identity.sync_version@ == crate::headers::SYNC_VERSION@,
    {
        ClientConfigBuilder {
            draft: ClientConfig {
                identity: PlexIdentity::new(client_identifier, platform),
                token: None,
                request_timeout: DEFAULT_REQUEST_TIMEOUT,
                connect_timeout: DEFAULT_CONNECT_TIMEOUT,
                max_retries: DEFAULT_MAX_RETRIES,
                retry_base_delay: DEFAULT_RETRY_BASE_DELAY,
                retry_max_delay: DEFAULT_RETRY_MAX_DELAY,
                user_agent: None,
            },
        }
    }

    /// The effective User-Agent string.
    pub fn effective_user_agent(&self) -> (s: String)
        ensures
            s@ == spec_user_agent(*self),
    {
        match &self.user_agent {
            Some(ua) => copy_string(ua),
            None => {
                let mut s = copy_string(&self.identity.product);
                push_char(&mut s, '/');
                push_str(&mut s, self.identity.version.as_str());
                push_str(&mut s, " (");
                push_str(&mut s, self.identity.platform.as_str());
                push_char(&mut s, ')');
                proof {
                    reveal_strlit(" (");
                    assert(" ("@ == seq![' ', '(']);
                }
                s
            },
        }
    }
}

/// Builder for [`ClientConfig`].
pub struct ClientConfigBuilder {
    draft: ClientConfig,
}

impl ClientConfigBuilder {
    /// The configuration this builder would produce.
    pub closed spec fn draft(&self) -> ClientConfig {
        self.draft
    }

    /// Replace the entire identity bundle.
    pub fn identity(self, identity: PlexIdentity) -> (b: Self)
        ensures
            b.draft() == (ClientConfig { identity, ..self.draft() }),
    {
        ClientConfigBuilder { draft: ClientConfig { identity, ..self.draft } }
    }

    /// Customise the identity with `f`.
    pub fn map_identity<F: FnOnce(PlexIdentity) -> PlexIdentity>(self, f: F) -> (b: Self)
        requires
            f.requires((self.draft().identity,)),
        ensures
            f.ensures((self.draft().identity,), b.draft().identity),
            b.draft() == (ClientConfig { identity: b.draft().identity, ..self.draft() }),
    {
        let ClientConfig {
            identity,
            token,
            request_timeout,
            connect_timeout,
            max_retries,
            retry_base_delay,
            retry_max_delay,
            user_agent,
        } = self.draft;
        let identity = f(identity);
        ClientConfigBuilder {
            draft: ClientConfig {
                identity,
                token,
                request_timeout,
                connect_timeout,
                max_retries,
                retry_base_delay,
                retry_max_delay,
                user_agent,
            },
        }
    }

    /// Set the auth token; `None` clears it.
    pub fn token(self, token: Option<PlexToken>) -> (b: Self)
        ensures
            b.draft() == (ClientConfig { token, ..self.draft() }),
    {
        ClientConfigBuilder { draft: ClientConfig { token, ..self.draft } }
    }

    /// Set the full-request timeout (nanoseconds).
    pub fn request_timeout(self, t: u64) -> (b: Self)
        ensures
            b.draft() == (ClientConfig { request_timeout: t, ..self.draft() }),
    {
        ClientConfigBuilder { draft: ClientConfig { request_timeout: t, ..self.draft } }
    }

    /// Set the connect-only timeout (nanoseconds).
    pub fn connect_timeout(self, t: u64) -> (b: Self)
        ensures
            b.draft() == (ClientConfig { connect_timeout: t, ..self.draft() }),
    {
        ClientConfigBuilder { draft: ClientConfig { connect_timeout: t, ..self.draft } }
    }

    /// Set the retry attempt cap.
    pub fn max_retries(self, n: u32) -> (b: Self)
        ensures
            b.draft() == (ClientConfig { max_retries: n, ..self.draft() }),
    {
        ClientConfigBuilder { draft: ClientConfig { max_retries: n, ..self.draft } }
    }

    /// Set the exponential-backoff base delay (nanoseconds).
    pub fn retry_base_delay(self, d: u64) -> (b: Self)
        ensures
            b.draft() == (ClientConfig { retry_base_delay: d, ..self.draft() }),
    {
        ClientConfigBuilder { draft: ClientConfig { retry_base_delay: d, ..self.draft } }
    }

    /// Set the cap on any single retry delay (nanoseconds).
    pub fn retry_max_delay(self, d: u64) -> (b: Self)
        ensures
            b.draft() == (ClientConfig { retry_max_delay: d, ..self.draft() }),
    {
        ClientConfigBuilder { draft: ClientConfig { retry_max_delay: d, ..self.draft } }
    }

    /// Override the User-Agent string entirely.
    pub fn user_agent(self, ua: &str) -> (b: Self)
        ensures
            b.draft().user_agent matches Some(u) && u@ == ua@,
            b.draft() == (ClientConfig { user_agent: b.draft().user_agent, ..self.draft() }),
    {
        ClientConfigBuilder { draft: ClientConfig { user_agent: Some(owned(ua)), ..self.draft } }
    }

    /// Finalise into a [`ClientConfig`], validating in order: request
    /// timeout positive, connect timeout positive, retries within the
    /// hard cap, retry ceiling at least the base delay. The first
    /// violated rule yields [`Error::Config`].
    pub fn build(self) -> (r: Result<ClientConfig>)
        ensures
            r is Ok <==> config_valid(self.draft()),
            r matches Ok(c) ==> c == self.draft(),
            r matches Err(e) ==> (e matches Error::Config(m) && m@ == build_error_message(self.draft())),
    {
        if self.draft.request_timeout == 0 {
            return Err(Error::Config(owned("request_timeout must be > 0")));
        }
        if self.draft.connect_timeout == 0 {
            return Err(Error::Config(owned("connect_timeout must be > 0")));
        }
        if self.draft.max_retries > RETRY_HARD_CAP {
            let mut msg = owned("max_retries ");
            push_dec(&mut msg, self.draft.max_retries as u64);
            push_str(&mut msg, " exceeds hard cap ");
            push_dec(&mut msg, RETRY_HARD_CAP as u64);
            return Err(Error::Config(msg));
        }
        if self.draft.retry_max_delay < self.draft.retry_base_delay {
            return Err(Error::Config(owned("retry_max_delay must be >= retry_base_delay")));
        }
        Ok(self.draft)
    }
}

/// `s` as `{:?}` renders an `Option<String>`.
pub open spec fn opt_debug(o: Option<String>) -> Seq<char> {
    match o {
        Some(s) => "Some("@ + str_debug(s@) + ")"@,
        None => "None"@,
    }
}

/// How a token shows in debug text: never its value.
pub open spec fn token_debug(t: Option<PlexToken>) -> Seq<char> {
    match t {
        Some(_) => "Some(***redacted***)"@,
        None => "None"@,
    }
}

/// The debug text of an identity, field by field.
pub open spec fn identity_debug(i: PlexIdentity) -> Seq<char> {
    "PlexIdentity { client_identifier: ClientIdentifier("@ + str_debug(i.client_identifier@)
        + "), product: "@ + str_debug(i.product@) + ", version: "@ + str_debug(i.version@)
        + ", platform: "@ + str_debug(i.platform@) + ", platform_version: "@ + opt_debug(
        i.platform_version,
    ) + ", device: "@ + str_debug(i.device@) + ", device_name: "@ + opt_debug(i.device_name)
        + ", provides: "@ + str_debug(i.provides@) + ", sync_version: "@ + str_debug(
        i.sync_version@,
    ) + " }"@
}

/// The debug text of a configuration: every field, the token redacted.
pub open spec fn config_debug(c: ClientConfig) -> Seq<char> {
    "ClientConfig { identity: "@ + identity_debug(c.identity) + ", token: "@ + token_debug(c.token)
        + ", request_timeout: "@ + duration_debug(c.request_timeout) + ", connect_timeout: "@
        + duration_debug(c.connect_timeout) + ", max_retries: "@ + dec_chars(c.max_retries as nat)
        + ", retry_base_delay: "@ + duration_debug(c.retry_base_delay) + ", retry_max_delay: "@
        + duration_debug(c.retry_max_delay) + ", user_agent: "@ + opt_debug(c.user_agent) + " }"@
}

/// Append `s` as `{:?}` renders it.
fn push_debug(out: &mut String, s: &str)
    ensures
        final(out)@ == old(out)@ + str_debug(s@),
{
    let d = debug_str(s);
    push_str(out, d.as_str());
}

/// Append an optional string as `{:?}` renders it.
fn push_opt_debug(out: &mut String, o: &Option<String>)
    ensures
        final(out)@ == old(out)@ + opt_debug(*o),
{
    match o {
        Some(s) => {
            push_str(out, "Some(");
            push_debug(out, s.as_str());
            push_str(out, ")");
        },
        None => push_str(out, "None"),
    }
}

/// Append the debug text of an identity.
#[verifier::rlimit(50)]
fn push_identity_debug(s: &mut String, i: &PlexIdentity)
    ensures
        final(s)@ == old(s)@ + identity_debug(*i),
{
    let ghost s0 = s@;
    push_str(s, "PlexIdentity { client_identifier: ClientIdentifier(");
    push_debug(s, i.client_identifier.as_str());
    push_str(s, "), product: ");
    push_debug(s, i.product.as_str());
    push_str(s, ", version: ");
    push_debug(s, i.version.as_str());
    push_str(s, ", platform: ");
    push_debug(s, i.platform.as_str());
    push_str(s, ", platform_version: ");
    push_opt_debug(s, &i.platform_version);
    let ghost mid = s@;
    assert(mid =~= s0 + ("PlexIdentity { client_identifier: ClientIdentifier("@ + str_debug(
        i.client_identifier@,
    ) + "), product: "@ + str_debug(i.product@) + ", version: "@ + str_debug(i.version@)
        + ", platform: "@ + str_debug(i.platform@) + ", platform_version: "@ + opt_debug(
        i.platform_version,
    )));
    push_str(s, ", device: ");
    push_debug(s, i.device.as_str());
    push_str(s, ", device_name: ");
    push_opt_debug(s, &i.device_name);
    push_str(s, ", provides: ");
    push_debug(s, i.provides.as_str());
    push_str(s, ", sync_version: ");
    push_debug(s, i.sync_version.as_str());
    push_str(s, " }");
    assert(s@ =~= s0 + identity_debug(*i));
}

impl ClientConfig {
    /// The configuration's debug text: every field, with the token shown
    /// only as present or absent, never by its value.
    #[verifier::rlimit(50)]
    pub fn debug_text(&self) -> (s: String)
        ensures
            s@ == config_debug(*self),
    {
        let mut s = owned("ClientConfig { identity: ");
        push_identity_debug(&mut s, &self.identity);
        push_str(&mut s, ", token: ");
        match &self.token {
            Some(_) => push_str(&mut s, "Some(***redacted***)"),
            None => push_str(&mut s, "None"),
        }
        push_str(&mut s, ", request_timeout: ");
        let d = debug_duration(self.request_timeout);
        push_str(&mut s, d.as_str());
        push_str(&mut s, ", connect_timeout: ");
        let d = debug_duration(self.connect_timeout);
        push_str(&mut s, d.as_str());
        let ghost mid = s@;
        assert(mid =~= "ClientConfig { identity: "@ + identity_debug(self.identity) + ", token: "@
            + token_debug(self.token) + ", request_timeout: "@ + duration_debug(self.request_timeout)
            + ", connect_timeout: "@ + duration_debug(self.connect_timeout));
        push_str(&mut s, ", max_retries: ");
        push_dec(&mut s, self.max_retries as u64);
        push_str(&mut s, ", retry_base_delay: ");
        let d = debug_duration(self.retry_base_delay);
        push_str(&mut s, d.as_str());
        push_str(&mut s, ", retry_max_delay: ");
        let d = debug_duration(self.retry_max_delay);
        push_str(&mut s, d.as_str());
        push_str(&mut s, ", user_agent: ");
        push_opt_debug(&mut s, &self.user_agent);
        push_str(&mut s, " }");
        assert(s@ =~= config_debug(*self));
        s
    }
}

} // verus!
