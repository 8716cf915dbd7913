//! Markers (intro, credits, commercial spans) and chapters of a
//! playable item.

use vstd::prelude::*;

use crate::headers::opt_view;
use crate::server::{PlexBool, opt_bool, opt_to_bool};
use crate::text::{owned, str_eq};

verus! {

broadcast use vstd::string::group_string_axioms;

/// What a marker delimits.
#[derive(Debug, Clone, PartialEq, Eq, Hash)]
#[non_exhaustive]
pub enum MarkerKind {
    /// `type="intro"` — the opening titles.
    Intro,
    /// `type="credits"` — the end credits.
    Credits,
    /// `type="commercial"` — an advertising break.
    Commercial,
    /// Any other wire value, kept verbatim.
    Other(String),
}

/// The wire spelling of a marker kind.
pub open spec fn marker_kind_wire(k: MarkerKind) -> Seq<char> {
    match k {
        MarkerKind::Intro => "intro"@,
        MarkerKind::Credits => "credits"@,
        MarkerKind::Commercial => "commercial"@,
        MarkerKind::Other(s) => s@,
    }
}

/// The spellings that map to a named marker kind.
pub open spec fn is_known_marker_wire(s: Seq<char>) -> bool {
    s == "intro"@ || s == "credits"@ || s == "commercial"@
}

impl MarkerKind {
    /// Map the wire `type` attribute to a kind; unknown values are kept
    /// in [`MarkerKind::Other`].
    pub fn from_wire(value: &str) -> (r: Self)
        ensures
            marker_kind_wire(r) == value@,
            value@ == "intro"@ ==> r is Intro,
            value@ == "credits"@ ==> r is Credits,
            value@ == "commercial"@ ==> r is Commercial,
            r is Other <==> !is_known_marker_wire(value@),
    {
        proof {
            reveal_strlit("intro");
            reveal_strlit("credits");
            reveal_strlit("commercial");
            assert("credits"@[1] != "commercial"@[1]);
        }
        if str_eq(value, "intro") {
            MarkerKind::Intro
        } else if str_eq(value, "credits") {
            MarkerKind::Credits
        } else if str_eq(value, "commercial") {
            MarkerKind::Commercial
        } else {
            MarkerKind::Other(owned(value))
        }
    }

    /// The canonical wire string.
    pub fn as_wire(&self) -> (r: &str)
        ensures
            r@ == marker_kind_wire(*self),
    {
        match self {
            MarkerKind::Intro => "intro",
            MarkerKind::Credits => "credits",
            MarkerKind::Commercial => "commercial",
            MarkerKind::Other(s) => s.as_str(),
        }
    }
}

/// Round trip of marker kinds: reading back the wire spelling of a
/// named kind gives that kind again, and any kind's spelling survives.
/// `r` stands for the result of `MarkerKind::from_wire(k.as_wire())`,
/// as that function's postcondition describes it.
pub proof fn law_marker_kind_round_trip(k: MarkerKind, r: MarkerKind)
    requires
        marker_kind_wire(r) == marker_kind_wire(k),
        marker_kind_wire(k) == "intro"@ ==> r is Intro,
        marker_kind_wire(k) == "credits"@ ==> r is Credits,
        marker_kind_wire(k) == "commercial"@ ==> r is Commercial,
    ensures
        !(k is Other) ==> r == k,
        marker_kind_wire(r) == marker_kind_wire(k),
{
}

/// A span of a playable item (intro, credits, …) in milliseconds.
#[derive(Debug, Clone, PartialEq, Eq)]
pub struct Marker {
    /// Server-side marker id.
    pub id: u64,
    /// What the marker delimits.
    pub kind: MarkerKind,
    /// Start offset in milliseconds.
    pub start_ms: u64,
    /// End offset in milliseconds.
    pub end_ms: u64,
    /// `true` for the credits marker that ends the item.
    pub final_credits: bool,
}

impl Marker {
    /// Length of the span; `0` when the end lies before the start.
    pub fn duration_ms(&self) -> (d: u64)
        ensures
            d == if self.end_ms >= self.start_ms { self.end_ms - self.start_ms } else { 0 },
    {
        self.end_ms.saturating_sub(self.start_ms)
    }

    /// `true` when `time_ms` lies within the span, both ends included.
    pub fn contains(&self, time_ms: u64) -> (b: bool)
        ensures
            b == (self.start_ms <= time_ms && time_ms <= self.end_ms),
    {
        time_ms >= self.start_ms && time_ms <= self.end_ms
    }
}

/// A chapter of a playable item.
#[derive(Debug, Clone, PartialEq, Eq)]
#[non_exhaustive]
pub struct Chapter {
    /// Server-side chapter id.
    pub id: u64,
    /// Chapter title.
    pub title: Option<String>,
    /// 1-based position.
    pub index: Option<i32>,
    /// Start offset in milliseconds.
    pub start_ms: u64,
    /// End offset in milliseconds, when known.
    pub end_ms: Option<u64>,
    /// Chapter thumbnail path.
    pub thumb: Option<String>,
}

/// A `<Marker>` element as decoded from the wire.
#[derive(Debug, Clone, Default)]
pub struct MarkerDto {
    /// `id`.
    pub id: u64,
    /// `type`.
    pub marker_type: Option<String>,
    /// `startTimeOffset`.
    pub start_time_offset: u64,
    /// `endTimeOffset`.
    pub end_time_offset: u64,
    /// `final`.
    pub final_credits: Option<PlexBool>,
}

impl MarkerDto {
    /// The marker it describes; an absent `type` reads as the empty
    /// string (an `Other` kind).
    pub fn into_domain(self) -> (m: Marker)
        ensures
            m.id == self.id,
            marker_kind_wire(m.kind) == match self.marker_type {
                Some(t) => t@,
                None => ""@,
            },
            m.start_ms == self.start_time_offset,
            m.end_ms == self.end_time_offset,
            m.final_credits == opt_bool(self.final_credits),
    {
        let kind = match &self.marker_type {
            Some(t) => MarkerKind::from_wire(t.as_str()),
            None => MarkerKind::from_wire(""),
        };
        let final_credits = opt_to_bool(&self.final_credits);
        Marker {
            id: self.id,
            kind,
            start_ms: self.start_time_offset,
            end_ms: self.end_time_offset,
            final_credits,
        }
    }
}

/// A `<Chapter>` element as decoded from the wire.
#[derive(Debug, Clone, Default)]
pub struct ChapterDto {
    /// `id`.
    pub id: u64,
    /// `tag` — the chapter title.
    pub tag: Option<String>,
    /// `index`.
    pub index: Option<i32>,
    /// `startTimeOffset`.
    pub start_time_offset: u64,
    /// `endTimeOffset`.
    pub end_time_offset: Option<u64>,
    /// `thumb`.
    pub thumb: Option<String>,
}

impl ChapterDto {
    /// The chapter it describes: the `tag` becomes the title.
    pub fn into_domain(self) -> (c: Chapter)
        ensures
            c.id == self.id,
            opt_view(c.title) == opt_view(self.tag),
            c.index == self.index,
            c.start_ms == self.start_time_offset,
            c.end_ms == self.end_time_offset,
            opt_view(c.thumb) == opt_view(self.thumb),
    {
        Chapter {
            id: self.id,
            title: self.tag,
            index: self.index,
            start_ms: self.start_time_offset,
            end_ms: self.end_time_offset,
            thumb: self.thumb,
        }
    }
}

} // verus!
