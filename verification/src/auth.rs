//! Sign-in to plex.tv: the password form, the reading of a sign-in
//! reply (token, two-factor challenge or error), and the PIN flow's
//! poll and wait decisions.

use vstd::prelude::*;
use vstd::string::StringSliceAdditionalSpecFns;
use vstd::utf8::encode_utf8;

use crate::error::{Error, Result, is_trimmed_body};
use crate::ids::PlexToken;
use crate::text::{
    chars_of, form_encode, form_encoded, lower_ascii, lower_char, lowered, non_empty_view, owned,
    push_char, push_str, string_bytes,
};
use crate::urls::form_pair;

verus! {

broadcast use vstd::string::group_string_axioms;

/// The plex.tv password sign-in endpoint.
pub const SIGNIN_URL: &'static str = "https://plex.tv/api/v2/users/signin";

/// The plex.tv PIN endpoint.
pub const PINS_URL: &'static str = "https://plex.tv/api/v2/pins";

/// plex.tv's error code for "a verification code is required".
pub const ERR_CODE_OTP_REQUIRED: i64 = 1029;

/// The sign-in form fields, in order.
pub open spec fn signin_fields(
    login: Seq<char>,
    password: Seq<char>,
    code: Option<Seq<char>>,
    remember: bool,
) -> Seq<(Seq<char>, Seq<char>)> {
    seq![
        ("login"@, login),
        ("password"@, password),
        ("rememberMe"@, if remember { "true"@ } else { "false"@ }),
    ] + match code {
        Some(c) => seq![("verificationCode"@, c)],
        None => seq![],
    }
}

/// `application/x-www-form-urlencoded` body of the fields.
pub open spec fn form_body(fields: Seq<(Seq<char>, Seq<char>)>) -> Seq<char>
    decreases fields.len(),
{
    if fields.len() == 0 {
        Seq::empty()
    } else if fields.len() == 1 {
        form_pair(fields[0])
    } else {
        form_body(fields.drop_last()) + seq!['&'] + form_pair(fields.last())
    }
}

/// Append one form pair, after `&` when the body is not empty.
pub(crate) fn push_form_pair(body: &mut String, name: &str, value: &str, first: bool)
    ensures
        final(body)@ == old(body)@ + (if first { Seq::empty() } else { seq!['&'] }) + form_pair(
            (name@, value@),
        ),
{
    if !first {
        push_char(body, '&');
    }
    let n = form_encode(name);
    push_str(body, n.as_str());
    push_char(body, '=');
    let v = form_encode(value);
    push_str(body, v.as_str());
}

/// The form body of a password sign-in.
pub fn encode_form(login: &str, password: &str, verification_code: Option<&str>, remember: bool) -> (b:
    Vec<u8>)
    ensures
        b@ == encode_utf8(
            form_body(
                signin_fields(
                    login@,
                    password@,
                    match verification_code {
                        Some(c) => Some(c@),
                        None => None,
                    },
                    remember,
                ),
            ),
        ),
{
    let ghost code = match verification_code {
        Some(c) => Some(c@),
        None => None,
    };
    let ghost fields = signin_fields(login@, password@, code, remember);
    let mut s = String::new();
    push_form_pair(&mut s, "login", login, true);
    push_form_pair(&mut s, "password", password, false);
    push_form_pair(&mut s, "rememberMe", if remember { "true" } else { "false" }, false);
    proof {
        assert(fields.take(1).drop_last() =~= Seq::<(Seq<char>, Seq<char>)>::empty());
        assert(form_body(fields.take(1)) == form_pair(fields[0]));
        assert(fields.take(2).drop_last() =~= fields.take(1));
        assert(fields.take(3).drop_last() =~= fields.take(2));
        assert(fields.take(2).last() == fields[1]);
        assert(fields.take(3).last() == fields[2]);
        assert(fields[0] == ("login"@, login@));
        assert(fields[1] == ("password"@, password@));
        assert(fields[2] == ("rememberMe"@, if remember { "true"@ } else { "false"@ }));
        assert(form_body(fields.take(2)) == form_pair(fields[0]) + seq!['&'] + form_pair(fields[1]));
        assert(form_body(fields.take(3)) == form_body(fields.take(2)) + seq!['&'] + form_pair(
            fields[2],
        ));
        assert(s@ =~= form_body(fields.take(3)));
    }
    if let Some(c) = verification_code {
        push_form_pair(&mut s, "verificationCode", c, false);
        proof {
            assert(fields.drop_last() =~= fields.take(3));
        }
    } else {
        proof {
            assert(fields =~= fields.take(3));
        }
    }
    string_bytes(s.as_str())
}

/// `true` when `needle` occurs in `hay` at `i`.
pub open spec fn occurs_at(hay: Seq<char>, needle: Seq<char>, i: int) -> bool {
    0 <= i && i + needle.len() <= hay.len() && hay.subrange(i, i + needle.len()) == needle
}

/// `true` when the ASCII-lower-cased body mentions a verification code.
pub open spec fn mentions_code(body: Seq<char>) -> bool {
    exists|i: int| #[trigger] occurs_at(lowered(body), "verification code"@, i)
}

/// Whether the lower-cased body contains `verification code`.
fn body_mentions_code(body: &str) -> (b: bool)
    ensures
        b == mentions_code(body@),
{
    let cs = chars_of(body);
    let mut low: Vec<char> = Vec::new();
    let mut i: usize = 0;
    while i < cs.len()
        invariant
            i <= cs@.len(),
            low@ == cs@.take(i as int).map_values(|c: char| lower_char(c)),
        decreases cs@.len() - i,
    {
        low.push(lower_ascii(cs[i]));
        proof {
            assert(low@ =~= cs@.take(i + 1).map_values(|c: char| lower_char(c)));
        }
        i += 1;
    }
    proof {
        assert(cs@.take(cs@.len() as int) =~= cs@);
        assert(low@ == lowered(body@));
        reveal_strlit("verification code");
    }
    let needle = chars_of("verification code");
    let n = needle.len();
    let m = low.len();
    if m < n {
        proof {
            assert forall|k: int| !occurs_at(low@, needle@, k) by {}
        }
        return false;
    }
    let mut k: usize = 0;
    while k <= m - n
        invariant
            low@ == lowered(body@),
            needle@ == "verification code"@,
            n == needle@.len(),
            m == low@.len(),
            n <= m,
            k <= m - n + 1,
            forall|j: int| 0 <= j < k ==> !occurs_at(low@, needle@, j),
        decreases m - n + 1 - k,
    {
        let mut t: usize = 0;
        let mut same = true;
        while t < n
            invariant
                n == needle@.len(),
                m == low@.len(),
                k + n <= m,
                t <= n,
                same == (forall|u: int| 0 <= u < t ==> low@[k + u] == needle@[u]),
            decreases n - t,
        {
            if low[k + t] != needle[t] {
                same = false;
            }
            t += 1;
        }
        if same {
            proof {
                assert(low@.subrange(k as int, k + n) =~= needle@);
                assert(occurs_at(lowered(body@), "verification code"@, k as int));
            }
            return true;
        }
        proof {
            assert(!occurs_at(low@, needle@, k as int)) by {
                if occurs_at(low@, needle@, k as int) {
                    let u = choose|u: int| 0 <= u < n && low@[k + u] != needle@[u];
                    assert(low@.subrange(k as int, k + n)[u] == low@[k + u]);
                }
            }
        }
        k += 1;
    }
    proof {
        assert forall|j: int| !occurs_at(low@, needle@, j) by {
            if 0 <= j && j + n <= m {
                assert(j < k);
            }
        }
    }
    false
}

/// `true` when a sign-in error body asks for a second factor: one of
/// its error codes (as decoded from its `errors` array, when it parses)
/// is 1029, or the body mentions a verification code in any case.
pub open spec fn signals_otp(codes: Option<Seq<Option<i64>>>, body: Seq<char>) -> bool {
    (codes matches Some(cs) && cs.contains(Some(ERR_CODE_OTP_REQUIRED))) || mentions_code(body)
}

/// Whether a failed sign-in asks for a verification code. `codes` are
/// the `code` fields of the body's `errors` array, when the body parses
/// as such an envelope.
pub fn body_signals_otp(codes: Option<&[Option<i64>]>, body: &str) -> (b: bool)
    ensures
        b == signals_otp(
            match codes {
                Some(c) => Some(c@),
                None => None,
            },
            body@,
        ),
{
    if let Some(cs) = codes {
        let mut i: usize = 0;
        while i < cs.len()
            invariant
                codes == Some(cs),
                i <= cs@.len(),
                forall|j: int| 0 <= j < i ==> cs@[j] != Some(ERR_CODE_OTP_REQUIRED),
            decreases cs@.len() - i,
        {
            if let Some(c) = cs[i] {
                if c == ERR_CODE_OTP_REQUIRED {
                    proof {
                        assert(cs@[i as int] == Some(ERR_CODE_OTP_REQUIRED));
                        assert(cs@.contains(Some(ERR_CODE_OTP_REQUIRED)));
                    }
                    return true;
                }
            }
            i += 1;
        }
    }
    body_mentions_code(body)
}

/// The outcome of a sign-in reply with status `status`: on success the
/// token it carries (an empty or missing one is an [`Error::Auth`]);
/// a 401 that asks for a second factor is [`Error::TwoFactorRequired`];
/// any other failure maps through [`Error::from_status`].
pub fn signin_outcome(
    status: u16,
    auth_token: Option<String>,
    otp_requested: bool,
    body: &str,
    path: &str,
) -> (r: Result<PlexToken>)
    ensures
        200 <= status < 300 ==> match non_empty_view(auth_token) {
            Some(t) => r matches Ok(k) && k@ == t,
            None => r matches Err(Error::Auth(m)) && m@
                == "plex.tv signin succeeded but returned no token"@,
        },
        !(200 <= status < 300) && status == 401 && otp_requested ==> r matches Err(
            Error::TwoFactorRequired,
        ),
        !(200 <= status < 300) && status == 401 && !otp_requested ==> r matches Err(
            Error::Unauthorized,
        ),
        !(200 <= status < 300) && status == 403 ==> (r matches Err(Error::Forbidden(m))
            && is_trimmed_body(m@, body@)),
        !(200 <= status < 300) && status == 404 ==> (r matches Err(Error::NotFound { resource })
            && resource@ == path@),
        !(200 <= status < 300) && status != 401 && status != 403 && status != 404 ==> (r matches Err(
            Error::Api { status: s, message },
        ) && s == status && is_trimmed_body(message@, body@)),
{
    if 200 <= status && status < 300 {
        return match crate::text::drop_empty(auth_token) {
            Some(t) => PlexToken::new(t.as_str()),
            None => Err(Error::Auth(owned("plex.tv signin succeeded but returned no token"))),
        };
    }
    if status == 401 && otp_requested {
        return Err(Error::TwoFactorRequired);
    }
    Err(Error::from_status(status, body, path))
}

/// The outcome of one PIN poll: a non-empty token when the PIN was
/// claimed; otherwise `None`, or [`Error::Auth`] when the PIN has
/// expired (an empty token counts as not yet claimed, expired or not).
pub fn pin_poll_outcome(auth_token: Option<String>, expired: bool) -> (r: Result<Option<PlexToken>>)
    ensures
        match auth_token {
            Some(t) => if t@.len() > 0 {
                r matches Ok(Some(k)) && k@ == t@
            } else {
                r matches Ok(None)
            },
            None => if expired {
                r matches Err(Error::Auth(m)) && m@ == "PIN expired before being claimed by the user"@
            } else {
                r matches Ok(None)
            },
        },
{
    match auth_token {
        Some(t) => if t.as_str().is_empty() {
            Ok(None)
        } else {
            let k = PlexToken::new(t.as_str())?;
            Ok(Some(k))
        },
        None => if expired {
            Err(Error::Auth(owned("PIN expired before being claimed by the user")))
        } else {
            Ok(None)
        },
    }
}

/// What the PIN wait loop does next.
pub enum PinWait {
    /// Signed in.
    Done(PlexToken),
    /// Give up: the timeout has elapsed.
    TimedOut,
    /// Sleep one interval and poll again.
    Sleep,
}

/// The wait loop's decision after a poll: done when a token came back,
/// timed out once `elapsed_ns` reaches `timeout_ns`, else sleep.
pub fn pin_wait_step(polled: Option<PlexToken>, elapsed_ns: u64, timeout_ns: u64) -> (w: PinWait)
    ensures
        match polled {
            Some(t) => w matches PinWait::Done(k) && k@ == t@,
            None => if elapsed_ns >= timeout_ns {
                w is TimedOut
            } else {
                w is Sleep
            },
        },
{
    match polled {
        Some(t) => PinWait::Done(t),
        None => if elapsed_ns >= timeout_ns {
            PinWait::TimedOut
        } else {
            PinWait::Sleep
        },
    }
}

/// The epoch seconds of the instant that `chrono` reads from `s` as a
/// `DateTime<Utc>` through `FromStr`, or `None` when it does not parse.
pub uninterp spec fn chrono_utc_secs(s: Seq<char>) -> Option<i64>;

/// The text chrono's `ParseError` displays when `s` does not parse as a
/// `DateTime<Utc>`.
pub uninterp spec fn chrono_utc_error_text(s: Seq<char>) -> Seq<char>;

/// `s.parse::<chrono::DateTime<chrono::Utc>>()`, then `timestamp()`: an
/// `Ok` carries the parsed instant's seconds, an `Err` the displayed
/// text of chrono's error; both are named, not spelled out.
#[verifier::external_body]
fn utc_secs(s: &str) -> (r: std::result::Result<i64, String>)
    ensures
        match chrono_utc_secs(s@) {
            Some(t) => r == std::result::Result::<i64, String>::Ok(t),
            None => r is Err,
        },
        r matches Err(e) ==> e@ == chrono_utc_error_text(s@),
{
    s.parse::<chrono::DateTime<chrono::Utc>>().map(|d| d.timestamp()).map_err(|e| e.to_string())
}

/// When a created PIN expires, in epoch seconds; fails with
/// [`Error::Config`] when `expires_at` is not a date.
pub fn pin_expiry(expires_at: &str) -> (r: Result<i64>)
    ensures
        match chrono_utc_secs(expires_at@) {
            Some(t) => r matches Ok(x) && x == t,
            None => r matches Err(Error::Config(m)) && m@ == "pin expiresAt unparseable: "@
                + chrono_utc_error_text(expires_at@),
        },
{
    match utc_secs(expires_at) {
        Ok(t) => Ok(t),
        Err(e) => {
            let mut m = owned("pin expiresAt unparseable: ");
            push_str(&mut m, e.as_str());
            Err(Error::Config(m))
        },
    }
}

/// Whether a PIN that expires at `expires_at` (epoch seconds) has
/// expired at `now_ms` (epoch milliseconds): strictly after the instant.
pub fn pin_expired(now_ms: i64, expires_at: i64) -> (b: bool)
    ensures
        b == (now_ms as int > expires_at as int * 1000),
{
    (now_ms as i128) > (expires_at as i128) * 1000
}

} // verus!
