//! Crate-wide [`Error`] and [`Result`] alias.
//!
//! Every fallible function in the crate returns [`Result<T>`]. The
//! variants carry plain values (status codes, messages, flags) so the
//! mapping and retry rules can be stated and checked here; the HTTP
//! layer turns transport failures into [`Error::Transport`] with the
//! flags the retry rule reads.

use vstd::prelude::*;
use vstd::string::StringSliceAdditionalSpecFns;
use vstd::utf8::*;

use crate::text::{dec_chars, fmt_u64, owned, push_char, push_str};

verus! {

/// All errors produced by the crate.
#[derive(Debug)]
#[non_exhaustive]
pub enum Error {
    /// The HTTP transport itself failed (DNS, TCP, TLS, reset, …).
    /// `timeout` and `connect` record whether the failure was a
    /// timeout or a connection failure.
    Transport {
        /// Human-readable description from the transport layer.
        message: String,
        /// The failure was a timeout.
        timeout: bool,
        /// The failure happened while connecting.
        connect: bool,
    },
    /// The server returned a status that maps to no more specific
    /// variant; `message` is the (possibly truncated) body.
    Api {
        /// HTTP status code.
        status: u16,
        /// Body excerpt.
        message: String,
    },
    /// HTTP `401 Unauthorized`.
    Unauthorized,
    /// HTTP `403 Forbidden`, with the body excerpt.
    Forbidden(String),
    /// HTTP `404 Not Found`; `resource` is the requested path.
    NotFound {
        /// The resource path that was requested.
        resource: String,
    },
    /// Authentication failed for a reason other than `401`.
    Auth(String),
    /// Two-factor verification is required to complete sign-in.
    TwoFactorRequired,
    /// The request did not complete within the timeout (nanoseconds).
    Timeout(u64),
    /// XML parsing failed.
    Xml(String),
    /// JSON parsing failed.
    Json(String),
    /// URL construction or parsing failed.
    Url(String),
    /// An HTTP header value could not be built from user input.
    InvalidHeader(String),
    /// A configuration value was rejected.
    Config(String),
    /// An internal invariant was violated.
    Internal(String),
}

/// Convenience alias for `std::result::Result<T, Error>`.
pub type Result<T> = std::result::Result<T, Error>;

/// Truncation limit for error message bodies, in bytes.
pub const MAX_BODY_LEN: usize = 1024;

/// The largest character boundary of `bytes` at or below `e`.
pub open spec fn snap_to_boundary(bytes: Seq<u8>, e: int) -> int
    decreases e,
{
    if e <= 0 || is_char_boundary(bytes, e) {
        e
    } else {
        snap_to_boundary(bytes, e - 1)
    }
}

/// Statuses the retry layer treats as transient.
pub open spec fn is_retryable_status(status: u16) -> bool {
    status == 408 || status == 425 || status == 429 || status == 500 || status == 502 || status
        == 503 || status == 504
}

/// The retry rule: timeouts, connect / timeout transport failures and
/// the transient statuses are retryable; nothing else is.
pub open spec fn spec_is_retryable(e: Error) -> bool {
    match e {
        Error::Timeout(_) => true,
        Error::Transport { timeout, connect, .. } => timeout || connect,
        Error::Api { status, .. } => is_retryable_status(status),
        _ => false,
    }
}

/// The UTF-8 prefix length kept when a body is longer than
/// [`MAX_BODY_LEN`] bytes.
pub open spec fn truncation_end(body: Seq<char>) -> int {
    snap_to_boundary(encode_utf8(body), MAX_BODY_LEN as int)
}

/// `message` is `body` cut down per the body-truncation rule: bodies
/// of at most [`MAX_BODY_LEN`] bytes are kept whole; longer ones keep
/// the longest whole-character prefix of at most that many bytes,
/// followed by `…`.
pub open spec fn is_trimmed_body(message: Seq<char>, body: Seq<char>) -> bool {
    if encode_utf8(body).len() <= MAX_BODY_LEN {
        message == body
    } else {
        &&& message.len() > 0
        &&& message.last() == '…'
        &&& encode_utf8(message.drop_last()) == encode_utf8(body).subrange(0, truncation_end(body))
    }
}

impl Error {
    /// Map a status code, a body excerpt and the requested path to the
    /// most specific variant: 401 → `Unauthorized`, 403 → `Forbidden`
    /// (trimmed body), 404 → `NotFound` (path), anything else → `Api`
    /// (status, trimmed body).
    pub fn from_status(status: u16, body: &str, path: &str) -> (e: Error)
        ensures
            status == 401 ==> e is Unauthorized,
            status == 403 ==> (e matches Error::Forbidden(m) && is_trimmed_body(m@, body@)),
            status == 404 ==> (e matches Error::NotFound { resource } && resource@ == path@),
            status != 401 && status != 403 && status != 404 ==> (e matches Error::Api {
                status: s,
                message,
            } && s == status && is_trimmed_body(message@, body@)),
    {
        let trimmed = trim_body(body);
        if status == 401 {
            Error::Unauthorized
        } else if status == 403 {
            Error::Forbidden(trimmed)
        } else if status == 404 {
            Error::NotFound { resource: owned(path) }
        } else {
            Error::Api { status, message: trimmed }
        }
    }

    /// `true` when the error is plausibly transient and the caller can
    /// retry after a backoff.
    pub fn is_retryable(&self) -> (r: bool)
        ensures
            r == spec_is_retryable(*self),
    {
        match self {
            Error::Timeout(_) => true,
            Error::Transport { timeout, connect, .. } => *timeout || *connect,
            Error::Api { status, .. } => {
                let s = *status;
                s == 408 || s == 425 || s == 429 || s == 500 || s == 502 || s == 503 || s == 504
            },
            _ => false,
        }
    }
}

/// Cut `body` down to at most [`MAX_BODY_LEN`] bytes on a character
/// boundary, marking a cut with `…`.
pub fn trim_body(body: &str) -> (m: String)
    ensures
        is_trimmed_body(m@, body@),
{
    let byte_len = body.as_bytes().len();
    if byte_len > MAX_BODY_LEN {
        let mut end: usize = MAX_BODY_LEN;
        while end > 0 && !body.is_char_boundary(end)
            invariant
                end <= MAX_BODY_LEN,
                snap_to_boundary(body.spec_bytes(), end as int) == truncation_end(body@),
            decreases end,
        {
            end -= 1;
        }
        proof {
            encode_utf8_valid_utf8(body@);
            assert(is_char_boundary(body.spec_bytes(), 0));
        }
        let (head, _) = body.split_at(end);
        let mut s = owned(head);
        push_char(&mut s, '…');
        proof {
            assert(s@.drop_last() == head@);
        }
        s
    } else {
        owned(body)
    }
}

/// The outcome of an HTTP status: success for 2xx, otherwise the error
/// [`Error::from_status`] maps it to.
pub fn check_status(status: u16, body: &str, path: &str) -> (r: Result<()>)
    ensures
        r is Ok <==> 200 <= status < 300,
        !(200 <= status < 300) && status == 401 ==> r matches Err(Error::Unauthorized),
        !(200 <= status < 300) && status == 403 ==> (r matches Err(Error::Forbidden(m))
            && is_trimmed_body(m@, body@)),
        !(200 <= status < 300) && status == 404 ==> (r matches Err(Error::NotFound { resource })
            && resource@ == path@),
        !(200 <= status < 300) && status != 401 && status != 403 && status != 404 ==> (r matches Err(
            Error::Api { status: s, message },
        ) && s == status && is_trimmed_body(message@, body@)),
{
    if 200 <= status && status < 300 {
        Ok(())
    } else {
        Err(Error::from_status(status, body, path))
    }
}

/// `http::StatusCode::canonical_reason` for the status code `status`
/// (`None` also when `StatusCode::from_u16` rejects the number).
pub uninterp spec fn canonical_reason(status: u16) -> Option<Seq<char>>;

/// `format!("{:?}", Duration::from_nanos(nanos))`: std's `Debug`
/// rendering of a duration.
pub uninterp spec fn duration_debug(nanos: u64) -> Seq<char>;

/// The canonical reason phrase of an HTTP status (`StatusCode::from_u16`
/// then `canonical_reason`). The result is the named reason; numbers
/// outside `100..=999` have none, as `from_u16` rejects them.
#[verifier::external_body]
fn reason_phrase(status: u16) -> (r: Option<String>)
    ensures
        opt_text(r) == canonical_reason(status),
        !(100 <= status <= 999) ==> r is None,
{
    http::StatusCode::from_u16(status).ok().and_then(|c| c.canonical_reason()).map(str::to_owned)
}

/// std's `Debug` rendering of a duration of `nanos` nanoseconds; the
/// result is the named rendering.
#[verifier::external_body]
pub(crate) fn debug_duration(nanos: u64) -> (r: String)
    ensures
        r@ == duration_debug(nanos),
{
    format!("{:?}", std::time::Duration::from_nanos(nanos))
}

/// The view of an optional string.
pub open spec fn opt_text(o: Option<String>) -> Option<Seq<char>> {
    match o {
        Some(s) => Some(s@),
        None => None,
    }
}

/// How a status code displays: the number, a space, and the reason
/// phrase or `<unknown status code>`.
pub open spec fn status_text(status: u16, reason: Option<Seq<char>>) -> Seq<char> {
    dec_chars(status as nat) + seq![' '] + match reason {
        Some(r) => r,
        None => "<unknown status code>"@,
    }
}

/// The human-readable message of an error.
pub open spec fn error_text(e: Error) -> Seq<char> {
    match e {
        Error::Transport { message, .. } => "transport error: "@ + message@,
        Error::Api { status, message } => "plex api error "@ + status_text(
            status,
            canonical_reason(status),
        ) + ": "@ + message@,
        Error::Unauthorized => "unauthorized: missing or invalid X-Plex-Token"@,
        Error::Forbidden(m) => "forbidden: "@ + m@,
        Error::NotFound { resource } => "not found: "@ + resource@,
        Error::Auth(m) => "authentication failed: "@ + m@,
        Error::TwoFactorRequired => "two-factor authentication required"@,
        Error::Timeout(n) => "timeout after "@ + duration_debug(n),
        Error::Xml(m) => "xml parse error: "@ + m@,
        Error::Json(m) => "json parse error: "@ + m@,
        Error::Url(m) => "invalid url: "@ + m@,
        Error::InvalidHeader(m) => "invalid http header: "@ + m@,
        Error::Config(m) => "invalid configuration: "@ + m@,
        Error::Internal(m) => "internal invariant violated: "@ + m@,
    }
}

/// Render a status code given its reason phrase.
pub fn status_line(status: u16, reason: Option<&str>) -> (s: String)
    ensures
        s@ == status_text(
            status,
            match reason {
                Some(r) => Some(r@),
                None => None,
            },
        ),
{
    let mut s = fmt_u64(status as u64);
    push_char(&mut s, ' ');
    match reason {
        Some(r) => push_str(&mut s, r),
        None => push_str(&mut s, "<unknown status code>"),
    }
    s
}

/// `prefix` followed by `rest`.
fn prefixed(prefix: &str, rest: &str) -> (s: String)
    ensures
        s@ == prefix@ + rest@,
{
    let mut s = owned(prefix);
    push_str(&mut s, rest);
    s
}

impl Error {
    /// The human-readable message of the error.
    pub fn to_string(&self) -> (s: String)
        ensures
            s@ == error_text(*self),
    {
        match self {
            Error::Transport { message, .. } => prefixed("transport error: ", message.as_str()),
            Error::Api { status, message } => {
                let reason = reason_phrase(*status);
                let line = match &reason {
                    Some(r) => status_line(*status, Some(r.as_str())),
                    None => status_line(*status, None),
                };
                let mut s = prefixed("plex api error ", line.as_str());
                push_str(&mut s, ": ");
                push_str(&mut s, message.as_str());
                proof {
                    assert(s@ =~= error_text(*self));
                }
                s
            },
            Error::Unauthorized => owned("unauthorized: missing or invalid X-Plex-Token"),
            Error::Forbidden(m) => prefixed("forbidden: ", m.as_str()),
            Error::NotFound { resource } => prefixed("not found: ", resource.as_str()),
            Error::Auth(m) => prefixed("authentication failed: ", m.as_str()),
            Error::TwoFactorRequired => owned("two-factor authentication required"),
            Error::Timeout(n) => {
                let d = debug_duration(*n);
                prefixed("timeout after ", d.as_str())
            },
            Error::Xml(m) => prefixed("xml parse error: ", m.as_str()),
            Error::Json(m) => prefixed("json parse error: ", m.as_str()),
            Error::Url(m) => prefixed("invalid url: ", m.as_str()),
            Error::InvalidHeader(m) => prefixed("invalid http header: ", m.as_str()),
            Error::Config(m) => prefixed("invalid configuration: ", m.as_str()),
            Error::Internal(m) => prefixed("internal invariant violated: ", m.as_str()),
        }
    }
}

} // verus!
