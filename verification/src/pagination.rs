//! Header-based pagination primitives.
//!
//! Plex paginates listings through two request headers,
//! `X-Plex-Container-Start` (offset) and `X-Plex-Container-Size` (page
//! size). [`PageRange`] is one such window; [`PageRange::advance_with`]
//! turns the response metadata into the next window, or `None` when the
//! listing is complete.

use vstd::prelude::*;

use crate::text::{dec_chars, fmt_u64};

verus! {

/// Request-side header name carrying the page start offset.
pub const HEADER_CONTAINER_START: &'static str = "X-Plex-Container-Start";

/// Request-side header name carrying the page size cap.
pub const HEADER_CONTAINER_SIZE: &'static str = "X-Plex-Container-Size";

/// Paging attributes echoed back on a `MediaContainer`.
#[derive(Debug, Clone, Copy, PartialEq, Eq)]
pub struct MediaContainerMeta {
    /// Number of items in this response.
    pub size: u32,
    /// Total number of items in the listing, when the server knows it.
    pub total_size: Option<u32>,
    /// Offset of the first item in this response, when echoed.
    pub offset: Option<u32>,
}

impl Default for MediaContainerMeta {
    fn default() -> (m: Self)
        ensures
            m.size == 0,
            m.total_size is None,
            m.offset is None,
    {
        MediaContainerMeta { size: 0, total_size: None, offset: None }
    }
}

/// A request-side pagination window.
#[derive(Debug, Clone, Copy, PartialEq, Eq, Hash)]
pub struct PageRange {
    /// Offset of the first item on the requested page.
    pub start: u32,
    /// Maximum items to return on the requested page.
    pub size: u32,
}

/// `a + b` saturating at `u32::MAX`.
pub open spec fn sat_add(a: u32, b: u32) -> u32 {
    if a + b > u32::MAX { u32::MAX } else { (a + b) as u32 }
}

/// The page after `p` given the response metadata `meta`, or `None`
/// when the listing is complete: a zero-sized page cannot progress; a
/// short response ends the listing; so does a response that, with the
/// items it returned, reaches the known total. Otherwise the start
/// advances by the page size (saturating).
pub open spec fn next_page(p: PageRange, meta: MediaContainerMeta) -> Option<PageRange> {
    if p.size == 0 {
        None
    } else if meta.size < p.size {
        None
    } else {
        match meta.total_size {
            Some(total) if sat_add(p.start, meta.size) >= total => None,
            _ => Some(PageRange { start: sat_add(p.start, p.size), size: p.size }),
        }
    }
}

impl PageRange {
    /// The first page of size `size`.
    pub fn first(size: u32) -> (p: Self)
        ensures
            p.start == 0,
            p.size == size,
    {
        PageRange { start: 0, size }
    }

    /// An explicit `(start, size)` page.
    pub fn new(start: u32, size: u32) -> (p: Self)
        ensures
            p.start == start,
            p.size == size,
    {
        PageRange { start, size }
    }

    /// The two request headers for this page: start, then size, with
    /// decimal values.
    pub fn headers(self) -> (h: [(&'static str, String); 2])
        ensures
            h[0].0@ == HEADER_CONTAINER_START@,
            h[0].1@ == dec_chars(self.start as nat),
            h[1].0@ == HEADER_CONTAINER_SIZE@,
            h[1].1@ == dec_chars(self.size as nat),
    {
        [
            (HEADER_CONTAINER_START, fmt_u64(self.start as u64)),
            (HEADER_CONTAINER_SIZE, fmt_u64(self.size as u64)),
        ]
    }

    /// The next page after this one given the response metadata, or
    /// `None` when the listing is complete.
    ///
    /// The listing is complete when the page is empty, the response is
    /// short, or the start plus the number of items returned reaches the
    /// known total. Consecutive pages are adjacent (the next one starts
    /// where this one ends, saturating at `u32::MAX`), keep their size,
    /// and never start at or past a known total.
    pub fn advance_with(self, meta: &MediaContainerMeta) -> (r: Option<Self>)
        ensures
            r == next_page(self, *meta),
            r matches Some(n) ==> n.size == self.size && n.start >= self.start,
            r matches Some(n) ==> (self.start + self.size <= u32::MAX ==> n.start == self.start
                + self.size),
            r matches Some(n) ==> (meta.total_size matches Some(t) ==> n.start < t),
    {
        if self.size == 0 {
            return None;
        }
        if meta.size < self.size {
            return None;
        }
        if let Some(total) = meta.total_size {
            if self.start.saturating_add(meta.size) >= total {
                return None;
            }
        }
        Some(PageRange { start: self.start.saturating_add(self.size), size: self.size })
    }

    /// `true` when this page is the very first one (`start == 0`).
    pub fn is_first(self) -> (r: bool)
        ensures
            r == (self.start == 0),
    {
        self.start == 0
    }
}

impl Default for PageRange {
    /// 50 items from offset 0, PMS's own default page size.
    fn default() -> (p: Self)
        ensures
            p.start == 0,
            p.size == 50,
    {
        Self::first(50)
    }
}

} // verus!
