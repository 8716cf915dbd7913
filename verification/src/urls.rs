//! The calls this crate makes into the `url` crate, and the query-string
//! assembly built on them.
//!
//! URL parsing and joining follow the WHATWG URL standard, which this
//! crate does not restate: each result is named by an uninterpreted
//! function of the call's arguments. Query strings are assembled here
//! with the `application/x-www-form-urlencoded` serializer (see
//! [`crate::text::form_encoded`]), exactly as `url`'s
//! `query_pairs_mut().append_pair` writes them.

use vstd::prelude::*;
use vstd::string::StringSliceAdditionalSpecFns;
use vstd::utf8::encode_utf8;

use crate::headers::opt_view;
use crate::text::{form_encode, form_encoded, joined, push_char, push_str, copy_string};

verus! {

/// A parsed URL as plain values: its serialization up to the end of
/// the query, its path, its query (without `?`) and its fragment
/// (without `#`).
#[derive(Debug)]
pub struct ParsedUrl {
    /// The serialization up to and including the query
    /// (`&url[..Position::AfterQuery]`).
    pub serialized: String,
    /// The path component (`Url::path`).
    pub path: String,
    /// The query component without `?` (`Url::query`).
    pub query: Option<String>,
    /// The fragment without `#` (`Url::fragment`).
    pub fragment: Option<String>,
}

/// The plain values of a parsed URL: (serialization up to the end of
/// the query, path, query, fragment).
pub type UrlParts = (Seq<char>, Seq<char>, Option<Seq<char>>, Option<Seq<char>>);

/// Result of `url::Url::parse` on `input`; `None` when the input does
/// not parse.
pub uninterp spec fn url_parse(input: Seq<char>) -> Option<UrlParts>;

/// Result of joining `reference` onto the URL serialized as `base`
/// (`url::Url::join`); `None` on failure.
pub uninterp spec fn url_join(base: Seq<char>, reference: Seq<char>) -> Option<UrlParts>;

/// The plain-value view of a parsed URL.
pub open spec fn parsed_view(p: ParsedUrl) -> UrlParts {
    (p.serialized@, p.path@, opt_view(p.query), opt_view(p.fragment))
}

/// The full serialization (`Url::as_str`): everything up to the end of
/// the query, then `#` and the fragment when there is one.
pub open spec fn full_serialization(p: UrlParts) -> Seq<char> {
    match p.3 {
        Some(f) => p.0 + seq!['#'] + f,
        None => p.0,
    }
}

impl ParsedUrl {
    /// The full serialization of the URL.
    pub fn as_string(&self) -> (s: String)
        ensures
            s@ == full_serialization(parsed_view(*self)),
    {
        let mut s = copy_string(&self.serialized);
        if let Some(f) = &self.fragment {
            push_char(&mut s, '#');
            push_str(&mut s, f.as_str());
        }
        s
    }
}

/// `url::Url::parse`: the result is the named parse of `input`; the
/// error carries the parser's message. Nothing more is stated of the
/// WHATWG parsing rules.
#[verifier::external_body]
pub(crate) fn parse_url(input: &str) -> (r: Result<ParsedUrl, String>)
    ensures
        match r {
            Ok(p) => url_parse(input@) == Some(parsed_view(p)),
            Err(_) => url_parse(input@) is None,
        },
{
    match url::Url::parse(input) {
        Ok(u) => Ok(
            ParsedUrl {
                serialized: u[..url::Position::AfterQuery].to_owned(),
                path: u.path().to_owned(),
                query: u.query().map(str::to_owned),
                fragment: u.fragment().map(str::to_owned),
            },
        ),
        Err(e) => Err(e.to_string()),
    }
}

/// `url::Url::join` of `reference` onto `base`, the serialization of an
/// already-parsed URL (it is read back with `Url::parse` to make the
/// call). The result is the named join; the error carries the parser's
/// message. Nothing more is stated of the resolution rules.
#[verifier::external_body]
pub(crate) fn join_url(base: &str, reference: &str) -> (r: Result<ParsedUrl, String>)
    ensures
        match r {
            Ok(p) => url_join(base@, reference@) == Some(parsed_view(p)),
            Err(_) => url_join(base@, reference@) is None,
        },
{
    match url::Url::parse(base).and_then(|b| b.join(reference)) {
        Ok(u) => Ok(
            ParsedUrl {
                serialized: u[..url::Position::AfterQuery].to_owned(),
                path: u.path().to_owned(),
                query: u.query().map(str::to_owned),
                fragment: u.fragment().map(str::to_owned),
            },
        ),
        Err(e) => Err(e.to_string()),
    }
}

/// The scheme, host and port (explicit or the scheme's default) of the
/// URL `input` parses to, as `url::Url` reports them; `None` when the
/// input does not parse.
pub uninterp spec fn url_origin(input: Seq<char>) -> Option<(Seq<char>, Option<Seq<char>>, Option<u16>)>;

/// `url::Url::parse` followed by `scheme`, `host_str` and
/// `port_or_known_default`: the result is the named origin of `input`.
/// Nothing more is stated of the parsing rules.
#[verifier::external_body]
pub(crate) fn parse_origin(input: &str) -> (r: Result<(String, Option<String>, Option<u16>), String>)
    ensures
        match r {
            Ok(o) => url_origin(input@) == Some((o.0@, opt_view(o.1), o.2)),
            Err(_) => url_origin(input@) is None,
        },
{
    match url::Url::parse(input) {
        Ok(u) => Ok((u.scheme().to_owned(), u.host_str().map(str::to_owned), u.port_or_known_default())),
        Err(e) => Err(e.to_string()),
    }
}

/// The URL `input` parses to with its scheme replaced by `scheme`, as
/// `url::Url::set_scheme` leaves it; `None` when the input does not
/// parse or the scheme change is refused.
pub uninterp spec fn url_set_scheme(input: Seq<char>, scheme: Seq<char>) -> Option<UrlParts>;

/// `url::Url::parse` followed by `set_scheme`: the result is the named
/// rewrite of `input`. Nothing more is stated of when a scheme change
/// is refused.
#[verifier::external_body]
pub(crate) fn set_url_scheme(input: &str, scheme: &str) -> (r: Option<ParsedUrl>)
    ensures
        match r {
            Some(p) => url_set_scheme(input@, scheme@) == Some(parsed_view(p)),
            None => url_set_scheme(input@, scheme@) is None,
        },
{
    let mut u = url::Url::parse(input).ok()?;
    u.set_scheme(scheme).ok()?;
    Some(
        ParsedUrl {
            serialized: u[..url::Position::AfterQuery].to_owned(),
            path: u.path().to_owned(),
            query: u.query().map(str::to_owned),
            fragment: u.fragment().map(str::to_owned),
        },
    )
}

/// One form-encoded `name=value` pair.
pub open spec fn form_pair(p: (Seq<char>, Seq<char>)) -> Seq<char> {
    form_encoded(encode_utf8(p.0)) + seq!['='] + form_encoded(encode_utf8(p.1))
}

/// The form-encoded query string for `pairs`, joined with `&`.
pub open spec fn form_query(pairs: Seq<(Seq<char>, Seq<char>)>) -> Seq<char> {
    joined(pairs.map_values(|p: (Seq<char>, Seq<char>)| form_pair(p)), '&')
}

/// Character views of `(name, value)` pairs.
pub open spec fn pairs_view(v: Seq<(String, String)>) -> Seq<(Seq<char>, Seq<char>)> {
    v.map_values(|p: (String, String)| (p.0@, p.1@))
}

/// The query after `pairs` are appended as
/// `query_pairs_mut().append_pair` does: the form-encoded pairs, after a
/// `&` when the existing query is non-empty.
pub open spec fn appended_query(
    query: Option<Seq<char>>,
    pairs: Seq<(Seq<char>, Seq<char>)>,
) -> Seq<char> {
    match query {
        None => form_query(pairs),
        Some(q) => if q.len() == 0 || pairs.len() == 0 {
            q + form_query(pairs)
        } else {
            q + seq!['&'] + form_query(pairs)
        },
    }
}

/// The URL `u` with `pairs` appended to its query: a `?` opens the
/// query when there was none, the path and fragment are unchanged.
pub open spec fn with_query(u: UrlParts, pairs: Seq<(Seq<char>, Seq<char>)>) -> UrlParts {
    let serialized = match u.2 {
        None => u.0 + seq!['?'] + form_query(pairs),
        Some(q) => if q.len() == 0 || pairs.len() == 0 {
            u.0 + form_query(pairs)
        } else {
            u.0 + seq!['&'] + form_query(pairs)
        },
    };
    (serialized, u.1, Some(appended_query(u.2, pairs)), u.3)
}

/// Form-encode `pairs` as `name=value` joined with `&`.
pub fn encode_query(pairs: &Vec<(String, String)>) -> (q: String)
    ensures
        q@ == form_query(pairs_view(pairs@)),
{
    let ghost all = pairs_view(pairs@).map_values(|p: (Seq<char>, Seq<char>)| form_pair(p));
    let mut q = String::new();
    let mut i: usize = 0;
    while i < pairs.len()
        invariant
            i <= pairs@.len(),
            all == pairs_view(pairs@).map_values(|p: (Seq<char>, Seq<char>)| form_pair(p)),
            q@ == joined(all.take(i as int), '&'),
        decreases pairs@.len() - i,
    {
        proof {
            assert(all.take(i + 1) =~= all.take(i as int).push(all[i as int]));
            crate::text::lemma_joined_push(all.take(i as int), all[i as int], '&');
        }
        if i > 0 {
            push_char(&mut q, '&');
        }
        let (k, v) = &pairs[i];
        let ek = form_encode(k.as_str());
        push_str(&mut q, ek.as_str());
        push_char(&mut q, '=');
        let ev = form_encode(v.as_str());
        push_str(&mut q, ev.as_str());
        i += 1;
    }
    proof {
        assert(all.take(pairs@.len() as int) =~= all);
    }
    q
}

/// Append form-encoded `pairs` to a parsed URL's query.
pub fn append_query(url: ParsedUrl, pairs: &Vec<(String, String)>) -> (r: ParsedUrl)
    ensures
        parsed_view(r) == with_query(parsed_view(url), pairs_view(pairs@)),
{
    let q = encode_query(pairs);
    let ParsedUrl { serialized, path, query, fragment } = url;
    let mut s = serialized;
    let new_query = match query {
        None => {
            push_char(&mut s, '?');
            push_str(&mut s, q.as_str());
            q
        },
        Some(existing) => {
            let mut nq = existing;
            if !nq.as_str().is_empty() && pairs.len() > 0 {
                push_char(&mut s, '&');
                push_char(&mut nq, '&');
            }
            push_str(&mut s, q.as_str());
            push_str(&mut nq, q.as_str());
            nq
        },
    };
    ParsedUrl { serialized: s, path, query: Some(new_query), fragment }
}

} // verus!
