//! Playlists: the kind discriminator.

use vstd::prelude::*;

use crate::text::{owned, str_eq};

verus! {

broadcast use vstd::string::group_string_axioms;

/// What a playlist holds (`playlistType`).
#[derive(Debug, Clone, PartialEq, Eq, Hash)]
#[non_exhaustive]
pub enum PlaylistKind {
    /// `audio`.
    Audio,
    /// `video`.
    Video,
    /// `photo`.
    Photo,
    /// Any other wire value, kept verbatim.
    Other(String),
}

/// The wire spelling of a playlist kind.
pub open spec fn playlist_kind_wire(k: PlaylistKind) -> Seq<char> {
    match k {
        PlaylistKind::Audio => "audio"@,
        PlaylistKind::Video => "video"@,
        PlaylistKind::Photo => "photo"@,
        PlaylistKind::Other(s) => s@,
    }
}

/// The spellings that map to a named playlist kind.
pub open spec fn is_known_playlist_wire(s: Seq<char>) -> bool {
    s == "audio"@ || s == "video"@ || s == "photo"@
}

impl PlaylistKind {
    /// Map the wire `playlistType` to a kind; unknown values are kept in
    /// [`PlaylistKind::Other`].
    pub fn from_wire(s: &str) -> (r: Self)
        ensures
            playlist_kind_wire(r) == s@,
            s@ == "audio"@ ==> r is Audio,
            s@ == "video"@ ==> r is Video,
            s@ == "photo"@ ==> r is Photo,
            r is Other <==> !is_known_playlist_wire(s@),
    {
        proof {
            reveal_strlit("audio");
            reveal_strlit("video");
            reveal_strlit("photo");
            assert("video"@[0] != "audio"@[0]);
            assert("photo"@[0] != "audio"@[0]);
            assert("photo"@[0] != "video"@[0]);
        }
        if str_eq(s, "audio") {
            PlaylistKind::Audio
        } else if str_eq(s, "video") {
            PlaylistKind::Video
        } else if str_eq(s, "photo") {
            PlaylistKind::Photo
        } else {
            PlaylistKind::Other(owned(s))
        }
    }

    /// The canonical wire string (also the kind's display form).
    pub fn as_wire(&self) -> (r: &str)
        ensures
            r@ == playlist_kind_wire(*self),
    {
        match self {
            PlaylistKind::Audio => "audio",
            PlaylistKind::Video => "video",
            PlaylistKind::Photo => "photo",
            PlaylistKind::Other(s) => s.as_str(),
        }
    }

    /// The display form: the wire string, owned.
    pub fn to_string(&self) -> (r: String)
        ensures
            r@ == playlist_kind_wire(*self),
    {
        owned(self.as_wire())
    }
}

/// Round trip of playlist kinds: reading back the wire spelling of a
/// named kind gives that kind again, and any kind's spelling survives.
/// `r` stands for the result of `PlaylistKind::from_wire(k.as_wire())`,
/// as that function's postcondition describes it.
pub proof fn law_playlist_kind_round_trip(k: PlaylistKind, r: PlaylistKind)
    requires
        playlist_kind_wire(r) == playlist_kind_wire(k),
        playlist_kind_wire(k) == "audio"@ ==> r is Audio,
        playlist_kind_wire(k) == "video"@ ==> r is Video,
        playlist_kind_wire(k) == "photo"@ ==> r is Photo,
    ensures
        !(k is Other) ==> r == k,
        playlist_kind_wire(r) == playlist_kind_wire(k),
{
}

} // verus!
