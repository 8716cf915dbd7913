//! The plex.tv watchlist: options, the listing URL, rating keys from
//! GUIDs and the add / remove action URLs.

use vstd::prelude::*;
use vstd::string::StringSliceAdditionalSpecFns;

use crate::error::{Error, Result};
use crate::headers::opt_view;
use crate::text::{dec_chars, fmt_u64, owned, pct_encode, pct_encoded, push_str, split_on, split_str, views};
use crate::urls::{ParsedUrl, append_query, pairs_view, parse_url, parsed_view, url_parse, with_query};

verus! {

broadcast use vstd::string::group_string_axioms;

/// Which slice of the watchlist to list.
#[derive(Debug, Copy, Clone, PartialEq, Eq)]
pub enum WatchlistFilter {
    /// Everything.
    All,
    /// Available to stream now.
    Available,
    /// Already released.
    Released,
}

impl Default for WatchlistFilter {
    fn default() -> (r: Self)
        ensures
            r == WatchlistFilter::All,
    {
        WatchlistFilter::All
    }
}

/// The path segment of a filter.
pub open spec fn filter_path(f: WatchlistFilter) -> Seq<char> {
    match f {
        WatchlistFilter::All => "all"@,
        WatchlistFilter::Available => "available"@,
        WatchlistFilter::Released => "released"@,
    }
}

impl WatchlistFilter {
    /// The path segment (`all` / `available` / `released`).
    pub fn as_path(self) -> (r: &'static str)
        ensures
            r@ == filter_path(self),
    {
        match self {
            WatchlistFilter::All => "all",
            WatchlistFilter::Available => "available",
            WatchlistFilter::Released => "released",
        }
    }
}

/// Restrict the watchlist to movies or shows.
#[derive(Debug, Copy, Clone, PartialEq, Eq)]
pub enum WatchlistKind {
    /// Movies.
    Movie,
    /// Shows.
    Show,
}

/// Plex's numeric search type of a kind.
pub open spec fn watchlist_kind_code(k: WatchlistKind) -> u32 {
    match k {
        WatchlistKind::Movie => 1,
        WatchlistKind::Show => 2,
    }
}

impl WatchlistKind {
    /// The numeric `type` value (1 movies, 2 shows).
    pub fn as_wire(self) -> (r: u32)
        ensures
            r == watchlist_kind_code(self),
    {
        match self {
            WatchlistKind::Movie => 1,
            WatchlistKind::Show => 2,
        }
    }
}

/// Options of a watchlist listing.
#[derive(Debug, Clone)]
#[non_exhaustive]
pub struct WatchlistOptions {
    /// The slice to list.
    pub filter: WatchlistFilter,
    /// Movies or shows only.
    pub kind: Option<WatchlistKind>,
    /// Sort expression (`titleSort:desc`, …).
    pub sort: Option<String>,
    /// Keep at most this many items.
    pub max_results: Option<usize>,
}

impl Default for WatchlistOptions {
    fn default() -> (o: Self)
        ensures
            o.filter == WatchlistFilter::All && o.kind is None && o.sort is None
                && o.max_results is None,
    {
        WatchlistOptions { filter: WatchlistFilter::All, kind: None, sort: None, max_results: None }
    }
}

impl WatchlistOptions {
    /// Set the slice.
    pub fn with_filter(self, filter: WatchlistFilter) -> (r: Self)
        ensures
            r == (WatchlistOptions { filter, ..self }),
    {
        WatchlistOptions { filter, ..self }
    }

    /// Restrict to one kind.
    pub fn with_kind(self, kind: WatchlistKind) -> (r: Self)
        ensures
            r == (WatchlistOptions { kind: Some(kind), ..self }),
    {
        WatchlistOptions { kind: Some(kind), ..self }
    }

    /// Set the sort expression.
    pub fn with_sort(self, sort: &str) -> (r: Self)
        ensures
            opt_view(r.sort) == Some(sort@),
            r == (WatchlistOptions { sort: r.sort, ..self }),
    {
        WatchlistOptions { sort: Some(owned(sort)), ..self }
    }

    /// Keep at most `n` items.
    pub fn with_max_results(self, n: usize) -> (r: Self)
        ensures
            r == (WatchlistOptions { max_results: Some(n), ..self }),
    {
        WatchlistOptions { max_results: Some(n), ..self }
    }
}

/// The query pairs of a listing: collections and external media always
/// included, then the kind and sort when set.
pub open spec fn watchlist_pairs(o: WatchlistOptions) -> Seq<(Seq<char>, Seq<char>)> {
    seq![("includeCollections"@, "1"@), ("includeExternalMedia"@, "1"@)] + match o.kind {
        Some(k) => seq![("type"@, dec_chars(watchlist_kind_code(k) as nat))],
        None => seq![],
    } + match o.sort {
        Some(s) => seq![("sort"@, s@)],
        None => seq![],
    }
}

/// The listing URL `<base>/library/sections/watchlist/<filter>` with
/// its query; fails with [`Error::Url`] when that does not parse.
pub fn build_watchlist_url(base: &str, opts: &WatchlistOptions) -> (r: Result<ParsedUrl>)
    ensures
        match url_parse(base@ + "/library/sections/watchlist/"@ + filter_path(opts.filter)) {
            None => r matches Err(Error::Url(_)),
            Some(u) => r matches Ok(p) && parsed_view(p) == with_query(u, watchlist_pairs(*opts)),
        },
{
    let mut raw = owned(base);
    push_str(&mut raw, "/library/sections/watchlist/");
    push_str(&mut raw, opts.filter.as_path());
    let url = match parse_url(raw.as_str()) {
        Ok(u) => u,
        Err(m) => {
            return Err(Error::Url(m));
        },
    };
    let mut v: Vec<(String, String)> = Vec::new();
    v.push((owned("includeCollections"), owned("1")));
    v.push((owned("includeExternalMedia"), owned("1")));
    if let Some(k) = opts.kind {
        v.push((owned("type"), fmt_u64(k.as_wire() as u64)));
    }
    if let Some(s) = &opts.sort {
        v.push((owned("sort"), owned(s.as_str())));
    }
    proof {
        assert(pairs_view(v@) =~= watchlist_pairs(*opts));
    }
    Ok(append_query(url, &v))
}

/// Escape one path or query segment: unreserved bytes (`A-Z a-z 0-9 -
/// _ . ~`) stay, every other byte becomes `%XX`.
pub fn urlencode_segment(s: &str) -> (out: String)
    ensures
        out@ == pct_encoded(s.spec_bytes()),
{
    pct_encode(s)
}

/// The text after the last `/` of a GUID (all of it when it has none).
pub open spec fn guid_tail(guid: Seq<char>) -> Seq<char> {
    split_on(guid, '/').last()
}

/// The rating key of a `plex://<type>/<key>` GUID: its last segment.
pub fn rating_key_from_guid(guid: &str) -> (r: String)
    ensures
        r@ == guid_tail(guid@),
{
    let parts = split_str(guid, '/');
    proof {
        crate::text::lemma_split_on_nonempty(guid@, '/');
        assert(views(parts@).len() == parts@.len());
    }
    let n = parts.len();
    proof {
        assert(views(parts@)[n - 1] == parts@[n - 1]@);
    }
    owned(parts[n - 1].as_str())
}

/// `<base>/actions/addToWatchlist?ratingKey=<key>` (or
/// `removeFromWatchlist` when `add` is false).
pub fn watchlist_action_url(base: &str, rating_key: &str, add: bool) -> (u: String)
    ensures
        u@ == base@ + (if add {
            "/actions/addToWatchlist?ratingKey="@
        } else {
            "/actions/removeFromWatchlist?ratingKey="@
        }) + pct_encoded(rating_key.spec_bytes()),
{
    let mut u = owned(base);
    if add {
        push_str(&mut u, "/actions/addToWatchlist?ratingKey=");
    } else {
        push_str(&mut u, "/actions/removeFromWatchlist?ratingKey=");
    }
    let k = urlencode_segment(rating_key);
    push_str(&mut u, k.as_str());
    u
}

/// Keep the first `max` items when a cap is set.
pub fn cap_results<T>(items: Vec<T>, max: Option<usize>) -> (r: Vec<T>)
    ensures
        r@ == match max {
            Some(n) => if n < items@.len() {
                items@.take(n as int)
            } else {
                items@
            },
            None => items@,
        },
{
    let mut items = items;
    if let Some(n) = max {
        items.truncate(n);
    }
    items
}

} // verus!
