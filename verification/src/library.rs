//! Library sections: the section-kind discriminator, the typed filter
//! builder and the smart-filter URI parser.

pub mod filters;
pub mod smart_filter;

use vstd::prelude::*;

use crate::error::{Error, Result};
use crate::headers::opt_view;
use crate::server::{PlexBool, join_path, opt_bool, opt_to_bool};
use crate::text::{debug_str, dec_chars, str_debug, u32_parse_error, u32_parse_error_text, fmt_u64, owned, parse_u32, parse_u32_spec, push_char, push_str, str_eq};
use crate::urls::{ParsedUrl, parsed_view, url_join};

verus! {

broadcast use vstd::string::group_string_axioms;

/// Discriminator for what a library section contains.
#[derive(Debug, Clone, PartialEq, Eq, Hash)]
#[non_exhaustive]
pub enum SectionKind {
    /// `type=movie` — a Movies section.
    Movie,
    /// `type=show` — a TV Shows section.
    Show,
    /// `type=artist` — a Music section.
    Music,
    /// `type=photo` — a Photos section.
    Photo,
    /// Anything else — the raw `type` string is preserved verbatim.
    Other(String),
}

/// The wire spelling of a section kind.
pub open spec fn section_kind_wire(k: SectionKind) -> Seq<char> {
    match k {
        SectionKind::Movie => "movie"@,
        SectionKind::Show => "show"@,
        SectionKind::Music => "artist"@,
        SectionKind::Photo => "photo"@,
        SectionKind::Other(s) => s@,
    }
}

/// The spellings that map to a named section kind.
pub open spec fn is_known_section_wire(s: Seq<char>) -> bool {
    s == "movie"@ || s == "show"@ || s == "artist"@ || s == "photo"@
}

impl SectionKind {
    /// Map Plex's wire `type` string to a variant; unknown strings are
    /// kept verbatim in [`SectionKind::Other`].
    pub fn from_wire(value: &str) -> (r: Self)
        ensures
            section_kind_wire(r) == value@,
            value@ == "movie"@ ==> r is Movie,
            value@ == "show"@ ==> r is Show,
            value@ == "artist"@ ==> r is Music,
            value@ == "photo"@ ==> r is Photo,
            r is Other <==> !is_known_section_wire(value@),
    {
        proof {
            reveal_strlit("movie");
            reveal_strlit("show");
            reveal_strlit("artist");
            reveal_strlit("photo");
            assert("show"@.len() == 4);
            assert("movie"@.len() == 5);
            assert("show"@ != "movie"@);
            assert("photo"@[0] != "movie"@[0]);
            assert("photo"@ != "artist"@);
        }
        if str_eq(value, "movie") {
            SectionKind::Movie
        } else if str_eq(value, "show") {
            SectionKind::Show
        } else if str_eq(value, "artist") {
            SectionKind::Music
        } else if str_eq(value, "photo") {
            SectionKind::Photo
        } else {
            SectionKind::Other(owned(value))
        }
    }

    /// The canonical wire string.
    pub fn as_wire(&self) -> (r: &str)
        ensures
            r@ == section_kind_wire(*self),
    {
        match self {
            SectionKind::Movie => "movie",
            SectionKind::Show => "show",
            SectionKind::Music => "artist",
            SectionKind::Photo => "photo",
            SectionKind::Other(s) => s.as_str(),
        }
    }

    /// The display form: the wire string, owned.
    pub fn to_string(&self) -> (r: String)
        ensures
            r@ == section_kind_wire(*self),
    {
        owned(self.as_wire())
    }
}

/// Round trip of section kinds: reading back the wire spelling of a
/// named kind gives that kind again, and the spelling of whatever
/// `from_wire` returns is the string it was given. `r` stands for the
/// result of `SectionKind::from_wire(k.as_wire())`, described by that
/// function's postcondition.
pub proof fn law_section_kind_round_trip(k: SectionKind, r: SectionKind)
    requires
        section_kind_wire(r) == section_kind_wire(k),
        section_kind_wire(k) == "movie"@ ==> r is Movie,
        section_kind_wire(k) == "show"@ ==> r is Show,
        section_kind_wire(k) == "artist"@ ==> r is Music,
        section_kind_wire(k) == "photo"@ ==> r is Photo,
    ensures
        !(k is Other) ==> r == k,
        section_kind_wire(r) == section_kind_wire(k),
{
}

/// The URL of `/library/sections/<id><suffix>` on the server at
/// `base_url`; fails with [`Error::Url`] when it does not join.
pub fn section_url(base_url: &str, id: u32, suffix: &str) -> (r: Result<ParsedUrl>)
    ensures
        match url_join(base_url@, "/library/sections/"@ + dec_chars(id as nat) + suffix@) {
            None => r matches Err(Error::Url(_)),
            Some(u) => r matches Ok(p) && parsed_view(p) == u,
        },
{
    let mut path = owned("/library/sections/");
    let d = fmt_u64(id as u64);
    push_str(&mut path, d.as_str());
    push_str(&mut path, suffix);
    join_path(base_url, path.as_str())
}

/// One library section as listed by `/library/sections`.
#[derive(Debug, Clone)]
#[non_exhaustive]
pub struct SectionEntry {
    /// Section id.
    pub id: u32,
    /// What the section holds.
    pub kind: SectionKind,
    /// Title.
    pub title: String,
    /// Section UUID (empty when absent).
    pub uuid: String,
    /// Metadata agent.
    pub agent: Option<String>,
    /// Scanner.
    pub scanner: Option<String>,
    /// Language.
    pub language: Option<String>,
    /// Creation time (epoch seconds).
    pub created_at: Option<i64>,
    /// Last update (epoch seconds).
    pub updated_at: Option<i64>,
    /// Sync allowed.
    pub allow_sync: bool,
    /// A scan is running.
    pub refreshing: bool,
}

/// A `<Directory>` element of the sections listing.
#[derive(Debug, Clone)]
pub struct DirectoryDto {
    /// `key` — the numeric section id.
    pub key: String,
    /// `type`.
    pub kind: String,
    /// `title`.
    pub title: String,
    /// `uuid`.
    pub uuid: Option<String>,
    /// `agent`.
    pub agent: Option<String>,
    /// `scanner`.
    pub scanner: Option<String>,
    /// `language`.
    pub language: Option<String>,
    /// `createdAt`.
    pub created_at: Option<i64>,
    /// `updatedAt`.
    pub updated_at: Option<i64>,
    /// `allowSync`.
    pub allow_sync: Option<PlexBool>,
    /// `refreshing`.
    pub refreshing: Option<PlexBool>,
}

impl DirectoryDto {
    /// The section this element describes; fails with
    /// [`Error::Config`] exactly when the key is not a `u32`.
    pub fn into_section(self) -> (r: Result<SectionEntry>)
        ensures
            r is Ok <==> parse_u32_spec(self.key@) is Some,
            r matches Err(e) ==> (e matches Error::Config(m) && m@ == "library section key "@
                + str_debug(self.key@) + " not numeric: "@ + u32_parse_error_text(self.key@)),
            r matches Ok(s) ==> {
                &&& Some(s.id) == parse_u32_spec(self.key@)
                &&& section_kind_wire(s.kind) == self.kind@
                &&& s.title@ == self.title@
                &&& s.uuid@ == match self.uuid {
                    Some(u) => u@,
                    None => Seq::<char>::empty(),
                }
                &&& opt_view(s.agent) == opt_view(self.agent)
                &&& opt_view(s.scanner) == opt_view(self.scanner)
                &&& opt_view(s.language) == opt_view(self.language)
                &&& s.created_at == self.created_at && s.updated_at == self.updated_at
                &&& s.allow_sync == opt_bool(self.allow_sync)
                &&& s.refreshing == opt_bool(self.refreshing)
            },
    {
        let id = match parse_u32(self.key.as_str()) {
            Some(n) => n,
            None => {
                let mut msg = owned("library section key ");
                let d = debug_str(self.key.as_str());
                push_str(&mut msg, d.as_str());
                push_str(&mut msg, " not numeric: ");
                match u32_parse_error(self.key.as_str()) {
                    Some(t) => push_str(&mut msg, t.as_str()),
                    None => {},
                }
                return Err(Error::Config(msg));
            },
        };
        let kind = SectionKind::from_wire(self.kind.as_str());
        let allow_sync = opt_to_bool(&self.allow_sync);
        let refreshing = opt_to_bool(&self.refreshing);
        Ok(
            SectionEntry {
                id,
                kind,
                title: self.title,
                uuid: match self.uuid {
                    Some(u) => u,
                    None => String::new(),
                },
                agent: self.agent,
                scanner: self.scanner,
                language: self.language,
                created_at: self.created_at,
                updated_at: self.updated_at,
                allow_sync,
                refreshing,
            },
        )
    }
}

/// Check that a section holds the kind a typed listing expects; fails
/// with [`Error::Config`] exactly when it does not.
pub fn check_section_kind(kind: &SectionKind, expected: &SectionKind, title: &str, label: &str) -> (r:
    Result<()>)
    ensures
        r is Ok <==> section_kind_wire(*kind) == section_kind_wire(*expected),
        r matches Err(e) ==> (e matches Error::Config(m) && m@ == "section "@ + str_debug(title@)
            + " is "@ + section_kind_wire(*kind) + " not "@ + label@),
{
    if str_eq(kind.as_wire(), expected.as_wire()) {
        Ok(())
    } else {
        let mut msg = owned("section ");
        let d = debug_str(title);
        push_str(&mut msg, d.as_str());
        push_str(&mut msg, " is ");
        push_str(&mut msg, kind.as_wire());
        push_str(&mut msg, " not ");
        push_str(&mut msg, label);
        Err(Error::Config(msg))
    }
}

} // verus!
