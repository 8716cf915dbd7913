//! Discover search options and the search URL they render to.

use vstd::prelude::*;

use crate::error::{Error, Result};
use crate::text::{dec_chars, fmt_u64, owned, push_str};
use crate::urls::{ParsedUrl, append_query, pairs_view, parse_url, parsed_view, url_parse, with_query};

verus! {

broadcast use vstd::string::group_string_axioms;

/// Which catalogue a Discover search covers.
#[derive(Debug, Copy, Clone, PartialEq, Eq)]
pub enum DiscoverKind {
    /// Movies.
    Movie,
    /// TV shows.
    Show,
}

/// The `searchTypes` value of a kind.
pub open spec fn discover_kind_wire(k: DiscoverKind) -> Seq<char> {
    match k {
        DiscoverKind::Movie => "movies"@,
        DiscoverKind::Show => "tv"@,
    }
}

impl DiscoverKind {
    /// The `searchTypes` value (`movies` / `tv`).
    pub fn as_wire(self) -> (r: &'static str)
        ensures
            r@ == discover_kind_wire(self),
    {
        match self {
            DiscoverKind::Movie => "movies",
            DiscoverKind::Show => "tv",
        }
    }
}

/// Options of a Discover search.
#[derive(Debug, Clone)]
#[non_exhaustive]
pub struct DiscoverOptions {
    /// Maximum number of results (default 30).
    pub limit: u32,
    /// Restrict to movies or shows; both when `None`.
    pub kind: Option<DiscoverKind>,
    /// `searchProviders` value (default `discover`).
    pub providers: String,
}

impl Default for DiscoverOptions {
    fn default() -> (o: Self)
        ensures
            o.limit == 30 && o.kind is None && o.providers@ == "discover"@,
    {
        DiscoverOptions { limit: 30, kind: None, providers: owned("discover") }
    }
}

impl DiscoverOptions {
    /// Set the result limit.
    pub fn with_limit(self, n: u32) -> (r: Self)
        ensures
            r == (DiscoverOptions { limit: n, ..self }),
    {
        DiscoverOptions { limit: n, ..self }
    }

    /// Restrict to one kind.
    pub fn with_kind(self, kind: DiscoverKind) -> (r: Self)
        ensures
            r == (DiscoverOptions { kind: Some(kind), ..self }),
    {
        DiscoverOptions { kind: Some(kind), ..self }
    }

    /// Set the search providers.
    pub fn with_providers(self, p: &str) -> (r: Self)
        ensures
            r.providers@ == p@,
            r == (DiscoverOptions { providers: r.providers, ..self }),
    {
        DiscoverOptions { providers: owned(p), ..self }
    }
}

/// The `searchTypes` value of the options: the kind's spelling, or
/// `movies,tv` for both.
pub open spec fn search_types(o: DiscoverOptions) -> Seq<char> {
    match o.kind {
        Some(k) => discover_kind_wire(k),
        None => "movies,tv"@,
    }
}

/// The query pairs of a search for `query`.
pub open spec fn search_pairs(query: Seq<char>, o: DiscoverOptions) -> Seq<(Seq<char>, Seq<char>)> {
    seq![
        ("query"@, query),
        ("limit"@, dec_chars(o.limit as nat)),
        ("searchTypes"@, search_types(o)),
        ("searchProviders"@, o.providers@),
        ("includeMetadata"@, "1"@),
    ]
}

/// The search URL under the Discover base URL `discover_base`; fails
/// with [`Error::Url`] when `<base>/library/search` does not parse.
pub fn search_url(discover_base: &str, query: &str, opts: &DiscoverOptions) -> (r: Result<
    ParsedUrl,
>)
    ensures
        match url_parse(discover_base@ + "/library/search"@) {
            None => r matches Err(Error::Url(_)),
            Some(u) => r matches Ok(p) && parsed_view(p) == with_query(
                u,
                search_pairs(query@, *opts),
            ),
        },
{
    let mut raw = owned(discover_base);
    push_str(&mut raw, "/library/search");
    let url = match parse_url(raw.as_str()) {
        Ok(u) => u,
        Err(m) => {
            return Err(Error::Url(m));
        },
    };
    let types = match opts.kind {
        Some(k) => k.as_wire(),
        None => "movies,tv",
    };
    let mut v: Vec<(String, String)> = Vec::new();
    v.push((owned("query"), owned(query)));
    v.push((owned("limit"), fmt_u64(opts.limit as u64)));
    v.push((owned("searchTypes"), owned(types)));
    v.push((owned("searchProviders"), owned(opts.providers.as_str())));
    v.push((owned("includeMetadata"), owned("1")));
    proof {
        assert(pairs_view(v@) =~= search_pairs(query@, *opts));
    }
    Ok(append_query(url, &v))
}

} // verus!
