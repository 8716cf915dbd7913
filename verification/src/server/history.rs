//! Playback history (`/status/sessions/history/all`): the query, its
//! URL, and the paging decisions of a collecting walk.

use vstd::prelude::*;

use crate::error::{Error, Result};
use crate::pagination::{MediaContainerMeta, PageRange, next_page};
use crate::text::{dec_chars, fmt_i64, fmt_u64, owned, signed_dec_chars};
use crate::urls::{ParsedUrl, append_query, join_url, pairs_view, parsed_view, url_join, with_query};
use crate::server::join_path;

verus! {

broadcast use vstd::string::group_string_axioms;

/// A history query against the server at `base_url`.
#[derive(Debug, Clone)]
#[non_exhaustive]
pub struct HistoryQuery {
    /// Serialization of the server's base URL.
    pub base_url: String,
    /// Only entries of this account.
    pub account_id: Option<u64>,
    /// Only entries of this library section.
    pub library_section_id: Option<u32>,
    /// Only entries of this item.
    pub rating_key: Option<u64>,
    /// Only entries viewed at or after this time (epoch seconds).
    pub mindate_epoch_secs: Option<i64>,
    /// Stop after this many entries.
    pub max_results: Option<usize>,
    /// Entries requested per page (at least 1).
    pub page_size: u32,
}

/// The query pairs: most-recent first, then each filter that is set.
pub open spec fn history_pairs(q: HistoryQuery) -> Seq<(Seq<char>, Seq<char>)> {
    seq![("sort"@, "viewedAt:desc"@)] + match q.account_id {
        Some(a) => seq![("accountID"@, dec_chars(a as nat))],
        None => seq![],
    } + match q.library_section_id {
        Some(s) => seq![("librarySectionID"@, dec_chars(s as nat))],
        None => seq![],
    } + match q.rating_key {
        Some(k) => seq![("metadataItemID"@, dec_chars(k as nat))],
        None => seq![],
    } + match q.mindate_epoch_secs {
        Some(e) => seq![("viewedAt>="@, signed_dec_chars(e as int))],
        None => seq![],
    }
}

impl HistoryQuery {
    /// A query with no filters, no cap and pages of 50.
    pub fn new(base_url: &str) -> (q: Self)
        ensures
            q.base_url@ == base_url@,
            q.account_id is None && q.library_section_id is None && q.rating_key is None,
            q.mindate_epoch_secs is None && q.max_results is None && q.page_size == 50,
    {
        HistoryQuery {
            base_url: owned(base_url),
            account_id: None,
            library_section_id: None,
            rating_key: None,
            mindate_epoch_secs: None,
            max_results: None,
            page_size: 50,
        }
    }

    /// Only entries of this account.
    pub fn account(self, account_id: u64) -> (r: Self)
        ensures
            r == (HistoryQuery { account_id: Some(account_id), ..self }),
    {
        HistoryQuery { account_id: Some(account_id), ..self }
    }

    /// Only entries of this library section.
    pub fn library_section(self, section_id: u32) -> (r: Self)
        ensures
            r == (HistoryQuery { library_section_id: Some(section_id), ..self }),
    {
        HistoryQuery { library_section_id: Some(section_id), ..self }
    }

    /// Only entries of this item.
    pub fn rating_key(self, rk: u64) -> (r: Self)
        ensures
            r == (HistoryQuery { rating_key: Some(rk), ..self }),
    {
        HistoryQuery { rating_key: Some(rk), ..self }
    }

    /// Only entries viewed at or after `secs` (epoch seconds).
    pub fn mindate_epoch_secs(self, secs: i64) -> (r: Self)
        ensures
            r == (HistoryQuery { mindate_epoch_secs: Some(secs), ..self }),
    {
        HistoryQuery { mindate_epoch_secs: Some(secs), ..self }
    }

    /// Stop after `n` entries.
    pub fn max_results(self, n: usize) -> (r: Self)
        ensures
            r == (HistoryQuery { max_results: Some(n), ..self }),
    {
        HistoryQuery { max_results: Some(n), ..self }
    }

    /// Entries per page; 0 is raised to 1.
    pub fn page_size(self, n: u32) -> (r: Self)
        ensures
            r == (HistoryQuery { page_size: if n == 0 { 1 } else { n }, ..self }),
    {
        HistoryQuery { page_size: if n == 0 { 1 } else { n }, ..self }
    }

    /// The history URL; fails with [`Error::Url`] when the history path
    /// does not join onto the base URL.
    pub fn build_url(&self) -> (r: Result<ParsedUrl>)
        ensures
            match url_join(self.base_url@, "/status/sessions/history/all"@) {
                None => r matches Err(Error::Url(_)),
                Some(u) => r matches Ok(p) && parsed_view(p) == with_query(u, history_pairs(*self)),
            },
    {
        let joined = match join_url(self.base_url.as_str(), "/status/sessions/history/all") {
            Ok(u) => u,
            Err(m) => {
                return Err(Error::Url(m));
            },
        };
        let mut v: Vec<(String, String)> = Vec::new();
        v.push((owned("sort"), owned("viewedAt:desc")));
        if let Some(a) = self.account_id {
            v.push((owned("accountID"), fmt_u64(a)));
        }
        if let Some(s) = self.library_section_id {
            v.push((owned("librarySectionID"), fmt_u64(s as u64)));
        }
        if let Some(k) = self.rating_key {
            v.push((owned("metadataItemID"), fmt_u64(k)));
        }
        if let Some(e) = self.mindate_epoch_secs {
            v.push((owned("viewedAt>="), fmt_i64(e)));
        }
        proof {
            assert(pairs_view(v@) =~= history_pairs(*self));
        }
        Ok(append_query(joined, &v))
    }
}

/// How many entries of a page of `n` a collecting walk keeps when it has
/// `taken` already and stops at `cap`: it stops right after the entry
/// that brings it to the cap (so at least one entry of a non-empty page
/// is kept even when the cap is already reached).
pub open spec fn kept(n: nat, taken: nat, cap: nat) -> nat {
    let need: nat = if cap > taken { (cap - taken) as nat } else { 1 };
    if n >= need { need } else { n }
}

/// The state of a collecting walk through the history pages.
#[derive(Debug, Clone, Copy, PartialEq, Eq)]
pub struct HistoryWalk {
    /// The page to fetch next, or `None` when the walk is over.
    pub next: Option<PageRange>,
    /// Entries kept so far.
    pub taken: usize,
    /// Stop once this many entries are kept.
    pub cap: usize,
}

impl HistoryWalk {
    /// The walk of a query: its first page, nothing taken, capped at
    /// `max_results` (unbounded when absent).
    pub fn start(q: &HistoryQuery) -> (w: Self)
        ensures
            w.next == Some(PageRange { start: 0, size: q.page_size }),
            w.taken == 0,
            w.cap == match q.max_results {
                Some(n) => n,
                None => usize::MAX,
            },
    {
        HistoryWalk {
            next: Some(PageRange::first(q.page_size)),
            taken: 0,
            cap: match q.max_results {
                Some(n) => n,
                None => usize::MAX,
            },
        }
    }

    /// Account for a fetched page holding `n` entries with metadata
    /// `meta`; returns how many of its entries (from the front) to keep.
    /// The walk ends when the cap is reached, or else when the page is
    /// the last one.
    pub fn accept(&mut self, n: usize, meta: &MediaContainerMeta) -> (k: usize)
        requires
            old(self).next is Some,
            old(self).taken as nat + n as nat <= usize::MAX,
        ensures
            k as nat == kept(n as nat, old(self).taken as nat, old(self).cap as nat),
            final(self).taken == old(self).taken + k,
            final(self).cap == old(self).cap,
            final(self).next == if n > 0 && final(self).taken >= old(self).cap {
                None
            } else {
                next_page(old(self).next->0, *meta)
            },
    {
        let need: usize = if self.cap > self.taken { self.cap - self.taken } else { 1 };
        let page = match self.next {
            Some(p) => p,
            None => PageRange::first(1),
        };
        if n >= need {
            self.taken = self.taken + need;
            self.next = None;
            need
        } else {
            self.taken = self.taken + n;
            self.next = page.advance_with(meta);
            n
        }
    }
}

/// The URL that deletes a history entry: its `historyKey` joined onto
/// the server's base URL; an entry without one fails with
/// [`Error::Config`].
pub fn history_delete_url(base_url: &str, history_key: Option<&str>) -> (r: Result<ParsedUrl>)
    ensures
        match history_key {
            None => r matches Err(Error::Config(m)) && m@ == "history entry missing historyKey"@,
            Some(k) => match url_join(base_url@, k@) {
                None => r matches Err(Error::Url(_)),
                Some(u) => r matches Ok(p) && parsed_view(p) == u,
            },
        },
{
    match history_key {
        None => Err(Error::Config(owned("history entry missing historyKey"))),
        Some(k) => join_path(base_url, k),
    }
}

} // verus!
