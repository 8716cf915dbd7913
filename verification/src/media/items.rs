//! Library items: the `type` discriminator of a metadata element, the
//! queue family each kind belongs to, rating-key parsing and episode
//! labels.

use vstd::prelude::*;

use crate::error::{Error, Result};
use crate::ids::RatingKey;
use crate::server::join_path;
use crate::urls::{parsed_view, url_join, ParsedUrl};
use crate::text::{debug_str, fmt_i64, str_debug, owned, parse_u64, parse_u64_spec, push_char, push_str, signed_dec_chars, str_eq};

verus! {

broadcast use vstd::string::group_string_axioms;

/// The kind of a library item.
#[derive(Debug, Copy, Clone, PartialEq, Eq)]
pub enum ItemKind {
    /// `movie`.
    Movie,
    /// `show`.
    Show,
    /// `season`.
    Season,
    /// `episode`.
    Episode,
    /// `artist`.
    Artist,
    /// `album`.
    Album,
    /// `track`.
    Track,
    /// `photoalbum`.
    Photoalbum,
    /// `photo` or `clip`.
    Photo,
}

/// The kind a `type` attribute names, if any.
pub open spec fn kind_of(ty: Seq<char>) -> Option<ItemKind> {
    if ty == "movie"@ {
        Some(ItemKind::Movie)
    } else if ty == "show"@ {
        Some(ItemKind::Show)
    } else if ty == "season"@ {
        Some(ItemKind::Season)
    } else if ty == "episode"@ {
        Some(ItemKind::Episode)
    } else if ty == "artist"@ {
        Some(ItemKind::Artist)
    } else if ty == "album"@ {
        Some(ItemKind::Album)
    } else if ty == "track"@ {
        Some(ItemKind::Track)
    } else if ty == "photoalbum"@ {
        Some(ItemKind::Photoalbum)
    } else if ty == "photo"@ || ty == "clip"@ {
        Some(ItemKind::Photo)
    } else {
        None
    }
}

/// The message for a `type` attribute `t` that names no kind.
pub open spec fn unknown_kind_message(t: Seq<char>) -> Seq<char> {
    if t.len() == 0 {
        "metadata element missing wire `type` discriminator"@
    } else {
        "unknown metadata type "@ + str_debug(t)
    }
}

/// The kind of a metadata element with `type` attribute `ty` (absent
/// reads as empty). Fails with [`Error::Config`] exactly when the type
/// names no kind (the empty type included).
pub fn item_kind(ty: Option<&str>) -> (r: Result<ItemKind>)
    ensures
        match kind_of(
            match ty {
                Some(t) => t@,
                None => Seq::<char>::empty(),
            },
        ) {
            Some(k) => r matches Ok(x) && x == k,
            None => r matches Err(Error::Config(m)) && m@ == unknown_kind_message(
                match ty {
                    Some(t) => t@,
                    None => Seq::<char>::empty(),
                },
            ),
        },
{
    let t = match ty {
        Some(t) => t,
        None => "",
    };
    proof {
        reveal_strlit("");
        reveal_strlit("movie");
        reveal_strlit("show");
        reveal_strlit("season");
        reveal_strlit("episode");
        reveal_strlit("artist");
        reveal_strlit("album");
        reveal_strlit("track");
        reveal_strlit("photoalbum");
        reveal_strlit("photo");
        reveal_strlit("clip");
        assert("album"@[0] != "movie"@[0]);
        assert("track"@[0] != "movie"@[0] && "track"@[0] != "album"@[0]);
        assert("photo"@[0] != "movie"@[0] && "photo"@[0] != "album"@[0] && "photo"@[0]
            != "track"@[0]);
        assert("clip"@[0] != "show"@[0]);
        assert("artist"@[0] != "season"@[0]);
        assert(t@ == match ty {
            Some(x) => x@,
            None => Seq::<char>::empty(),
        });
    }
    if str_eq(t, "movie") {
        Ok(ItemKind::Movie)
    } else if str_eq(t, "show") {
        Ok(ItemKind::Show)
    } else if str_eq(t, "season") {
        Ok(ItemKind::Season)
    } else if str_eq(t, "episode") {
        Ok(ItemKind::Episode)
    } else if str_eq(t, "artist") {
        Ok(ItemKind::Artist)
    } else if str_eq(t, "album") {
        Ok(ItemKind::Album)
    } else if str_eq(t, "track") {
        Ok(ItemKind::Track)
    } else if str_eq(t, "photoalbum") {
        Ok(ItemKind::Photoalbum)
    } else if str_eq(t, "photo") || str_eq(t, "clip") {
        Ok(ItemKind::Photo)
    } else if t.is_empty() {
        Err(Error::Config(owned("metadata element missing wire `type` discriminator")))
    } else {
        let mut msg = owned("unknown metadata type ");
        let d = debug_str(t);
        push_str(&mut msg, d.as_str());
        Err(Error::Config(msg))
    }
}

/// The play-queue family of a kind.
pub open spec fn list_type_of(k: ItemKind) -> Seq<char> {
    match k {
        ItemKind::Movie | ItemKind::Show | ItemKind::Season | ItemKind::Episode => "video"@,
        ItemKind::Artist | ItemKind::Album | ItemKind::Track => "audio"@,
        ItemKind::Photoalbum | ItemKind::Photo => "photo"@,
    }
}

impl ItemKind {
    /// The play-queue family: `video`, `audio` or `photo`.
    pub fn list_type(self) -> (r: &'static str)
        ensures
            r@ == list_type_of(self),
    {
        match self {
            ItemKind::Movie | ItemKind::Show | ItemKind::Season | ItemKind::Episode => "video",
            ItemKind::Artist | ItemKind::Album | ItemKind::Track => "audio",
            ItemKind::Photoalbum | ItemKind::Photo => "photo",
        }
    }
}

/// The message of a rating key attribute `field` whose value `s` is not
/// numeric.
pub open spec fn not_numeric_message(field: Seq<char>, s: Seq<char>) -> Seq<char> {
    "metadata."@ + field + " not numeric: "@ + seq!['"'] + s + seq!['"']
}

/// Parse a rating key attribute; fails with [`Error::Config`] naming
/// `field` exactly when it is not a decimal `u64`.
pub fn parse_rating_key(s: &str, field: &str) -> (r: Result<RatingKey>)
    ensures
        match parse_u64_spec(s@) {
            Some(n) => r matches Ok(k) && k.0 == n,
            None => r matches Err(Error::Config(m)) && m@ == not_numeric_message(field@, s@),
        },
{
    match parse_u64(s) {
        Some(n) => Ok(RatingKey(n)),
        None => {
            let mut msg = owned("metadata.");
            push_str(&mut msg, field);
            push_str(&mut msg, " not numeric: ");
            push_char(&mut msg, '"');
            push_str(&mut msg, s);
            push_char(&mut msg, '"');
            Err(Error::Config(msg))
        },
    }
}

/// Parse an optional rating key attribute.
pub fn parse_rating_key_opt(s: Option<&str>, field: &str) -> (r: Result<Option<RatingKey>>)
    ensures
        match s {
            None => r matches Ok(None),
            Some(t) => match parse_u64_spec(t@) {
                Some(n) => r matches Ok(Some(k)) && k.0 == n,
                None => r matches Err(Error::Config(m)) && m@ == not_numeric_message(field@, t@),
            },
        },
{
    match s {
        None => Ok(None),
        Some(t) => {
            let k = parse_rating_key(t, field)?;
            Ok(Some(k))
        },
    }
}

/// Decimal rendering padded with a leading zero to two characters.
pub open spec fn pad2(n: i32) -> Seq<char> {
    if 0 <= n < 10 {
        seq!['0'] + signed_dec_chars(n as int)
    } else {
        signed_dec_chars(n as int)
    }
}

/// `S<season>E<episode>`, each at least two digits wide.
fn push_pad2(s: &mut String, n: i32)
    ensures
        final(s)@ == old(s)@ + pad2(n),
{
    if 0 <= n && n < 10 {
        push_char(s, '0');
    }
    let d = fmt_i64(n as i64);
    push_str(s, d.as_str());
}

/// The `S01E02` label of an episode, when both its season and episode
/// numbers are known.
pub fn season_episode_label(parent_index: Option<i32>, index: Option<i32>) -> (r: Option<String>)
    ensures
        match (parent_index, index) {
            (Some(s), Some(e)) => r matches Some(l) && l@ == seq!['S'] + pad2(s) + seq!['E'] + pad2(
                e,
            ),
            _ => r is None,
        },
{
    match (parent_index, index) {
        (Some(s), Some(e)) => {
            let mut l = owned("S");
            push_pad2(&mut l, s);
            push_char(&mut l, 'E');
            push_pad2(&mut l, e);
            proof {
                reveal_strlit("S");
            }
            Some(l)
        },
        _ => None,
    }
}

/// An image path of an item (`thumb`, `art`, …) resolved against the
/// server's base URL: `None` when the item has no such path, an
/// [`Error::Url`] when the path does not join.
pub fn thumb_url(base_url: &str, thumb: Option<&str>) -> (r: Result<Option<ParsedUrl>>)
    ensures
        match thumb {
            None => r matches Ok(None),
            Some(t) => match url_join(base_url@, t@) {
                None => r matches Err(Error::Url(_)),
                Some(u) => r matches Ok(Some(p)) && parsed_view(p) == u,
            },
        },
{
    match thumb {
        None => Ok(None),
        Some(t) => match join_path(base_url, t) {
            Ok(u) => Ok(Some(u)),
            Err(e) => Err(e),
        },
    }
}

/// A rating-key attribute an item of kind `owner` cannot do without
/// (the parent of a season, episode, album or track): the parsed key,
/// or [`Error::Config`] when it is absent or not numeric.
pub fn required_rating_key(s: Option<&str>, field: &str, owner: &str) -> (r: Result<RatingKey>)
    ensures
        match s {
            None => r matches Err(Error::Config(m)) && m@ == owner@ + " missing "@ + field@,
            Some(t) => match parse_u64_spec(t@) {
                Some(n) => r matches Ok(k) && k.0 == n,
                None => r matches Err(Error::Config(m)) && m@ == not_numeric_message(field@, t@),
            },
        },
{
    match s {
        Some(t) => parse_rating_key(t, field),
        None => {
            let mut m = owned(owner);
            push_str(&mut m, " missing ");
            push_str(&mut m, field);
            Err(Error::Config(m))
        },
    }
}

/// How an item of a kind treats a parent rating key: not read, read
/// when present, or required.
pub enum ParentRule {
    /// Not read.
    Ignored,
    /// Read when present.
    Optional,
    /// Required; the name is the kind's name in messages.
    Required,
}

/// Which parent keys a kind carries: (parent, grandparent, owner name).
pub open spec fn parent_rules(k: ItemKind) -> (ParentRule, ParentRule, Seq<char>) {
    match k {
        ItemKind::Season => (ParentRule::Required, ParentRule::Ignored, "season"@),
        ItemKind::Episode => (ParentRule::Required, ParentRule::Required, "episode"@),
        ItemKind::Album => (ParentRule::Required, ParentRule::Ignored, "album"@),
        ItemKind::Track => (ParentRule::Required, ParentRule::Required, "track"@),
        ItemKind::Photoalbum | ItemKind::Photo => (ParentRule::Optional, ParentRule::Ignored, ""@),
        _ => (ParentRule::Ignored, ParentRule::Ignored, ""@),
    }
}

/// One rating-key attribute read under `rule`: the key (or none), or
/// the message of the failure.
pub open spec fn read_key(rule: ParentRule, s: Option<Seq<char>>, field: Seq<char>, owner: Seq<char>) -> std::result::Result<
    Option<u64>,
    Seq<char>,
> {
    match rule {
        ParentRule::Ignored => Ok(None),
        _ => match s {
            None => if rule is Required {
                Err(owner + " missing "@ + field)
            } else {
                Ok(None)
            },
            Some(t) => match parse_u64_spec(t) {
                Some(n) => Ok(Some(n)),
                None => Err(not_numeric_message(field, t)),
            },
        },
    }
}

/// The rating keys of an item of kind `k`: its own `ratingKey`, then the
/// parent's, then the grandparent's, each read as the kind requires;
/// the first failure wins.
pub open spec fn item_keys_spec(
    k: ItemKind,
    rating_key: Seq<char>,
    parent: Option<Seq<char>>,
    grandparent: Option<Seq<char>>,
) -> std::result::Result<(u64, Option<u64>, Option<u64>), Seq<char>> {
    let (pr, gr, owner) = parent_rules(k);
    match parse_u64_spec(rating_key) {
        None => Err(not_numeric_message("ratingKey"@, rating_key)),
        Some(n) => match read_key(pr, parent, "parentRatingKey"@, owner) {
            Err(m) => Err(m),
            Ok(p) => match read_key(gr, grandparent, "grandparentRatingKey"@, owner) {
                Err(m) => Err(m),
                Ok(g) => Ok((n, p, g)),
            },
        },
    }
}

/// The view of an optional key.
pub open spec fn key_view(k: Option<RatingKey>) -> Option<u64> {
    match k {
        Some(x) => Some(x.0),
        None => None,
    }
}

/// The view of an optional string slice.
pub open spec fn str_opt(s: Option<&str>) -> Option<Seq<char>> {
    match s {
        Some(t) => Some(t@),
        None => None,
    }
}

/// The rating keys of an item of kind `kind`.
#[derive(Debug, Copy, Clone, PartialEq, Eq)]
pub struct ItemKeys {
    /// The item's own key.
    pub rating_key: RatingKey,
    /// The parent's key, for kinds that read it.
    pub parent: Option<RatingKey>,
    /// The grandparent's key, for kinds that read it.
    pub grandparent: Option<RatingKey>,
}

fn read_key_exec(rule: ParentRule, s: Option<&str>, field: &str, owner: &str) -> (r: Result<
    Option<RatingKey>,
>)
    ensures
        match read_key(rule, str_opt(s), field@, owner@) {
            Ok(k) => r matches Ok(x) && key_view(x) == k,
            Err(m) => r matches Err(Error::Config(e)) && e@ == m,
        },
{
    match rule {
        ParentRule::Ignored => Ok(None),
        ParentRule::Optional => parse_rating_key_opt(s, field),
        ParentRule::Required => {
            let k = required_rating_key(s, field, owner)?;
            Ok(Some(k))
        },
    }
}

/// Read the rating keys of an item of kind `kind`: its own `ratingKey`
/// first, then `parentRatingKey` (required for seasons, episodes, albums
/// and tracks, read when present for photo albums and photos), then
/// `grandparentRatingKey` (required for episodes and tracks). Other
/// parent keys are not read. The first failure is the error.
pub fn item_keys(kind: ItemKind, rating_key: &str, parent: Option<&str>, grandparent: Option<&str>) -> (r:
    Result<ItemKeys>)
    ensures
        match item_keys_spec(kind, rating_key@, str_opt(parent), str_opt(grandparent)) {
            Ok((n, p, g)) => r matches Ok(k) && k.rating_key.0 == n && key_view(k.parent) == p
                && key_view(k.grandparent) == g,
            Err(m) => r matches Err(Error::Config(e)) && e@ == m,
        },
{
    let (pr, gr, owner): (ParentRule, ParentRule, &str) = match kind {
        ItemKind::Season => (ParentRule::Required, ParentRule::Ignored, "season"),
        ItemKind::Episode => (ParentRule::Required, ParentRule::Required, "episode"),
        ItemKind::Album => (ParentRule::Required, ParentRule::Ignored, "album"),
        ItemKind::Track => (ParentRule::Required, ParentRule::Required, "track"),
        ItemKind::Photoalbum | ItemKind::Photo => (ParentRule::Optional, ParentRule::Ignored, ""),
        _ => (ParentRule::Ignored, ParentRule::Ignored, ""),
    };
    proof {
        assert(parent_rules(kind) == (pr, gr, owner@));
    }
    let own = parse_rating_key(rating_key, "ratingKey")?;
    let p = read_key_exec(pr, parent, "parentRatingKey", owner)?;
    let g = read_key_exec(gr, grandparent, "grandparentRatingKey", owner)?;
    Ok(ItemKeys { rating_key: own, parent: p, grandparent: g })
}

/// The kind of a photo-album entry: an untyped entry is a photo, a
/// typed one must be a photo album or a photo.
pub open spec fn photo_entry_kind_spec(ty: Option<Seq<char>>) -> std::result::Result<ItemKind, Seq<char>> {
    match ty {
        None => Ok(ItemKind::Photo),
        Some(t) => match kind_of(t) {
            None => Err(unknown_kind_message(t)),
            Some(ItemKind::Photoalbum) => Ok(ItemKind::Photoalbum),
            Some(ItemKind::Photo) => Ok(ItemKind::Photo),
            Some(_) => Err("unknown photo entry type "@ + str_debug(t)),
        },
    }
}

/// The kind of a photo-album entry with `type` attribute `ty`.
pub fn photo_entry_kind(ty: Option<&str>) -> (r: Result<ItemKind>)
    ensures
        match photo_entry_kind_spec(str_opt(ty)) {
            Ok(k) => r matches Ok(x) && x == k,
            Err(m) => r matches Err(Error::Config(e)) && e@ == m,
        },
{
    match ty {
        None => Ok(ItemKind::Photo),
        Some(t) => {
            let k = item_kind(Some(t))?;
            match k {
                ItemKind::Photoalbum => Ok(ItemKind::Photoalbum),
                ItemKind::Photo => Ok(ItemKind::Photo),
                _ => {
                    let mut msg = owned("unknown photo entry type ");
                    let d = debug_str(t);
                    push_str(&mut msg, d.as_str());
                    Err(Error::Config(msg))
                },
            }
        },
    }
}

} // verus!
