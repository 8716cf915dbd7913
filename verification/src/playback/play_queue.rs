//! Play queues: the `uri` forms that name queue sources and the request
//! that creates a queue.

use vstd::prelude::*;
use vstd::string::StringSliceAdditionalSpecFns;
use vstd::utf8::encode_utf8;

use crate::error::{Error, Result};
use crate::headers::opt_view;
use crate::ids::MachineIdentifier;
use crate::media::playlist::PlaylistKind;
use crate::playback::client::QueueItemRef;
use crate::text::{dec_chars, fmt_u64, joined, owned, pct_encode, pct_encoded, push_char, push_str};
use crate::server::join_path;
use crate::urls::{ParsedUrl, append_query, join_url, pairs_view, parsed_view, url_join, with_query};
use crate::library::smart_filter::{law_percent_decoding_inverts_encoding, percent_decoded};

verus! {

broadcast use vstd::string::group_string_axioms;

/// Plex's provider identifier of the local library.
pub const LIBRARY_IDENTIFIER: &'static str = "com.plexapp.plugins.library";

/// RFC 3986 percent-encoding of a whole path: every byte but the
/// unreserved ones (`A-Z a-z 0-9 - . _ ~`) becomes `%XX`, so `/` and `,`
/// are escaped too.
pub fn pct_encode_path(input: &str) -> (out: String)
    ensures
        out@ == pct_encoded(input.spec_bytes()),
{
    pct_encode(input)
}

/// `server://<machine>/com.plexapp.plugins.library<item_key>`.
pub open spec fn server_uri_spec(machine_id: Seq<char>, item_key: Seq<char>) -> Seq<char> {
    "server://"@ + machine_id + seq!['/'] + "com.plexapp.plugins.library"@ + item_key
}

/// The `server://` URI of one library item.
pub fn server_uri(machine_id: &MachineIdentifier, item_key: &str) -> (s: String)
    ensures
        s@ == server_uri_spec(machine_id@, item_key@),
{
    let mut s = owned("server://");
    push_str(&mut s, machine_id.as_str());
    push_char(&mut s, '/');
    push_str(&mut s, LIBRARY_IDENTIFIER);
    push_str(&mut s, item_key);
    proof {
        reveal_strlit("server://");
        reveal_strlit("com.plexapp.plugins.library");
    }
    s
}

/// Decimal renderings of rating keys.
pub open spec fn key_digits(keys: Seq<u64>) -> Seq<Seq<char>> {
    keys.map_values(|k: u64| dec_chars(k as nat))
}

/// `library:///directory/` then the percent-encoded path
/// `/library/metadata/<k1>,<k2>,…`.
pub open spec fn library_directory_uri_spec(keys: Seq<u64>) -> Seq<char> {
    "library:///directory/"@ + pct_encoded(
        encode_utf8("/library/metadata/"@ + joined(key_digits(keys), ',')),
    )
}

/// The `library://` URI of several items, by rating key.
pub fn library_directory_uri(rating_keys: &[u64]) -> (s: String)
    ensures
        s@ == library_directory_uri_spec(rating_keys@),
{
    let mut raw = owned("/library/metadata/");
    let ghost prefix = raw@;
    let mut i: usize = 0;
    while i < rating_keys.len()
        invariant
            i <= rating_keys@.len(),
            raw@ == prefix + joined(key_digits(rating_keys@).take(i as int), ','),
        decreases rating_keys@.len() - i,
    {
        proof {
            assert(key_digits(rating_keys@).take(i + 1) =~= key_digits(rating_keys@).take(
                i as int,
            ).push(dec_chars(rating_keys@[i as int] as nat)));
            crate::text::lemma_joined_push(
                key_digits(rating_keys@).take(i as int),
                dec_chars(rating_keys@[i as int] as nat),
                ',',
            );
        }
        if i > 0 {
            push_char(&mut raw, ',');
        }
        let d = fmt_u64(rating_keys[i]);
        push_str(&mut raw, d.as_str());
        i += 1;
    }
    proof {
        assert(key_digits(rating_keys@).take(rating_keys@.len() as int) =~= key_digits(
            rating_keys@,
        ));
        reveal_strlit("/library/metadata/");
        reveal_strlit("library:///directory/");
    }
    let enc = pct_encode(raw.as_str());
    let mut s = owned("library:///directory/");
    push_str(&mut s, enc.as_str());
    s
}

/// The queue `type` of a playlist: `audio`, `photo`, or `video` (also
/// for unknown kinds).
pub open spec fn playlist_queue_type(k: PlaylistKind) -> Seq<char> {
    match k {
        PlaylistKind::Audio => "audio"@,
        PlaylistKind::Photo => "photo"@,
        _ => "video"@,
    }
}

/// The queue `type` of a playlist.
pub fn playlist_type(kind: &PlaylistKind) -> (r: &'static str)
    ensures
        r@ == playlist_queue_type(*kind),
{
    match kind {
        PlaylistKind::Audio => "audio",
        PlaylistKind::Photo => "photo",
        _ => "video",
    }
}

/// Where a new play queue takes its items from.
#[derive(Debug, Clone)]
pub enum QueueSource {
    /// One library item.
    Item(QueueItemRef),
    /// Several library items, in order.
    Items(Vec<QueueItemRef>),
    /// A playlist, by kind and rating key.
    Playlist {
        /// The playlist's kind.
        kind: PlaylistKind,
        /// The playlist's rating key.
        rating_key: u64,
    },
}

/// The options of a new play queue.
#[derive(Debug, Clone)]
pub struct PlayQueueRequest {
    /// The source; required.
    pub source: Option<QueueSource>,
    /// Shuffle the queue.
    pub shuffle: bool,
    /// Repeat the queue.
    pub repeat: bool,
    /// Include chapter data (default on).
    pub include_chapters: bool,
    /// Include related items (default on).
    pub include_related: bool,
    /// Continue into following items (default off).
    pub continuous: bool,
    /// Key of the item to start at.
    pub start_key: Option<String>,
}

/// `"1"` or `"0"`.
pub open spec fn flag(b: bool) -> Seq<char> {
    if b { "1"@ } else { "0"@ }
}

/// Rating keys of queue items.
pub open spec fn item_keys(items: Seq<QueueItemRef>) -> Seq<u64> {
    items.map_values(|i: QueueItemRef| i.rating_key)
}

/// The pairs that name the source.
pub open spec fn source_pairs(s: QueueSource, machine_id: Seq<char>) -> Seq<(Seq<char>, Seq<char>)> {
    match s {
        QueueSource::Item(i) => seq![
            ("type"@, i.list_type@),
            ("uri"@, server_uri_spec(machine_id, i.key@)),
        ],
        QueueSource::Items(v) => seq![
            ("type"@, v@[0].list_type@),
            ("uri"@, library_directory_uri_spec(item_keys(v@))),
        ],
        QueueSource::Playlist { kind, rating_key } => seq![
            ("type"@, playlist_queue_type(kind)),
            ("playlistID"@, dec_chars(rating_key as nat)),
        ],
    }
}

/// The query pairs of a create-queue request with source `s`.
pub open spec fn request_pairs(r: PlayQueueRequest, s: QueueSource, machine_id: Seq<char>) -> Seq<
    (Seq<char>, Seq<char>),
> {
    seq![
        ("includeChapters"@, flag(r.include_chapters)),
        ("includeRelated"@, flag(r.include_related)),
        ("repeat"@, flag(r.repeat)),
        ("shuffle"@, flag(r.shuffle)),
        ("continuous"@, flag(r.continuous)),
    ] + source_pairs(s, machine_id) + match r.start_key {
        Some(k) => seq![("key"@, k@)],
        None => seq![],
    }
}

/// `"1"` or `"0"`.
fn flag_str(b: bool) -> (r: &'static str)
    ensures
        r@ == flag(b),
{
    if b {
        "1"
    } else {
        "0"
    }
}

impl PlayQueueRequest {
    /// A request with no source yet: chapters and related items
    /// included, everything else off.
    pub fn new() -> (r: Self)
        ensures
            r.source is None && !r.shuffle && !r.repeat && r.include_chapters && r.include_related
                && !r.continuous && r.start_key is None,
    {
        PlayQueueRequest {
            source: None,
            shuffle: false,
            repeat: false,
            include_chapters: true,
            include_related: true,
            continuous: false,
            start_key: None,
        }
    }

    /// Queue one item.
    pub fn from_item(self, item: QueueItemRef) -> (r: Self)
        ensures
            r == (PlayQueueRequest { source: Some(QueueSource::Item(item)), ..self }),
    {
        PlayQueueRequest { source: Some(QueueSource::Item(item)), ..self }
    }

    /// Queue several items.
    pub fn from_items(self, items: Vec<QueueItemRef>) -> (r: Self)
        ensures
            r == (PlayQueueRequest { source: Some(QueueSource::Items(items)), ..self }),
    {
        PlayQueueRequest { source: Some(QueueSource::Items(items)), ..self }
    }

    /// Queue a playlist.
    pub fn from_playlist(self, kind: PlaylistKind, rating_key: u64) -> (r: Self)
        ensures
            r == (PlayQueueRequest {
                source: Some(QueueSource::Playlist { kind, rating_key }),
                ..self
            }),
    {
        PlayQueueRequest { source: Some(QueueSource::Playlist { kind, rating_key }), ..self }
    }

    /// Shuffle the queue.
    pub fn shuffle(self, on: bool) -> (r: Self)
        ensures
            r == (PlayQueueRequest { shuffle: on, ..self }),
    {
        PlayQueueRequest { shuffle: on, ..self }
    }

    /// Repeat the queue.
    pub fn repeat(self, on: bool) -> (r: Self)
        ensures
            r == (PlayQueueRequest { repeat: on, ..self }),
    {
        PlayQueueRequest { repeat: on, ..self }
    }

    /// Include chapter data.
    pub fn include_chapters(self, on: bool) -> (r: Self)
        ensures
            r == (PlayQueueRequest { include_chapters: on, ..self }),
    {
        PlayQueueRequest { include_chapters: on, ..self }
    }

    /// Include related items.
    pub fn include_related(self, on: bool) -> (r: Self)
        ensures
            r == (PlayQueueRequest { include_related: on, ..self }),
    {
        PlayQueueRequest { include_related: on, ..self }
    }

    /// Continue into following items.
    pub fn continuous(self, on: bool) -> (r: Self)
        ensures
            r == (PlayQueueRequest { continuous: on, ..self }),
    {
        PlayQueueRequest { continuous: on, ..self }
    }

    /// Start at the item with this key.
    pub fn start_at(self, start_key: &str) -> (r: Self)
        ensures
            opt_view(r.start_key) == Some(start_key@),
            r == (PlayQueueRequest { start_key: r.start_key, ..self }),
    {
        PlayQueueRequest { start_key: Some(owned(start_key)), ..self }
    }

    /// The `POST /playQueues` URL for this request on the server at
    /// `base_url` identified by `machine_id`.
    ///
    /// Fails with [`Error::Config`] when there is no source, then with
    /// [`Error::Url`] when `/playQueues` does not join onto the base
    /// URL, then with [`Error::Config`] when the source is an empty list
    /// of items.
    pub fn create_url(&self, base_url: &str, machine_id: &MachineIdentifier) -> (r: Result<
        ParsedUrl,
    >)
        ensures
            match self.source {
                None => r matches Err(Error::Config(m)) && m@ == "CreatePlayQueue requires a source"@,
                Some(s) => match url_join(base_url@, "/playQueues"@) {
                    None => r matches Err(Error::Url(_)),
                    Some(u) => if s matches QueueSource::Items(v) && v@.len() == 0 {
                        r matches Err(Error::Config(m)) && m@
                            == "CreatePlayQueue::from_items requires at least one item"@
                    } else {
                        r matches Ok(p) && parsed_view(p) == with_query(
                            u,
                            request_pairs(*self, s, machine_id@),
                        )
                    },
                },
            },
    {
        let source = match &self.source {
            Some(s) => s,
            None => {
                return Err(Error::Config(owned("CreatePlayQueue requires a source")));
            },
        };
        let joined = match join_url(base_url, "/playQueues") {
            Ok(u) => u,
            Err(m) => {
                return Err(Error::Url(m));
            },
        };
        let mut v: Vec<(String, String)> = Vec::new();
        v.push((owned("includeChapters"), owned(flag_str(self.include_chapters))));
        v.push((owned("includeRelated"), owned(flag_str(self.include_related))));
        v.push((owned("repeat"), owned(flag_str(self.repeat))));
        v.push((owned("shuffle"), owned(flag_str(self.shuffle))));
        v.push((owned("continuous"), owned(flag_str(self.continuous))));
        let ghost fixed = pairs_view(v@);
        match source {
            QueueSource::Item(item) => {
                v.push((owned("type"), owned(item.list_type.as_str())));
                v.push((owned("uri"), server_uri(machine_id, item.key.as_str())));
            },
            QueueSource::Items(items) => {
                if items.len() == 0 {
                    return Err(
                        Error::Config(
                            owned("CreatePlayQueue::from_items requires at least one item"),
                        ),
                    );
                }
                let mut keys: Vec<u64> = Vec::new();
                let mut i: usize = 0;
                while i < items.len()
                    invariant
                        i <= items@.len(),
                        keys@ == item_keys(items@).take(i as int),
                    decreases items@.len() - i,
                {
                    keys.push(items[i].rating_key);
                    proof {
                        assert(keys@ =~= item_keys(items@).take(i + 1));
                    }
                    i += 1;
                }
                proof {
                    assert(item_keys(items@).take(items@.len() as int) =~= item_keys(items@));
                }
                v.push((owned("type"), owned(items[0].list_type.as_str())));
                v.push((owned("uri"), library_directory_uri(keys.as_slice())));
            },
            QueueSource::Playlist { kind, rating_key } => {
                v.push((owned("type"), owned(playlist_type(kind))));
                v.push((owned("playlistID"), fmt_u64(*rating_key)));
            },
        }
        if let Some(k) = &self.start_key {
            v.push((owned("key"), owned(k.as_str())));
        }
        proof {
            assert(pairs_view(v@) =~= request_pairs(*self, *source, machine_id@));
        }
        Ok(append_query(joined, &v))
    }
}

/// The path of a queue.
pub open spec fn queue_path(queue_id: u64) -> Seq<char> {
    "/playQueues/"@ + dec_chars(queue_id as nat)
}

/// The path of one item of a queue.
pub open spec fn queue_item_path(queue_id: u64, item_id: u64) -> Seq<char> {
    queue_path(queue_id) + "/items/"@ + dec_chars(item_id as nat)
}

/// `/playQueues/<id>` with `suffix`.
fn queue_path_string(queue_id: u64, suffix: &str) -> (s: String)
    ensures
        s@ == queue_path(queue_id) + suffix@,
{
    let mut s = owned("/playQueues/");
    let d = fmt_u64(queue_id);
    push_str(&mut s, d.as_str());
    push_str(&mut s, suffix);
    s
}

/// `/playQueues/<id>/items/<item>` with `suffix`.
fn queue_item_path_string(queue_id: u64, item_id: u64, suffix: &str) -> (s: String)
    ensures
        s@ == queue_item_path(queue_id, item_id) + suffix@,
{
    let mut s = queue_path_string(queue_id, "/items/");
    let d = fmt_u64(item_id);
    push_str(&mut s, d.as_str());
    push_str(&mut s, suffix);
    proof {
        assert(s@ =~= queue_item_path(queue_id, item_id) + suffix@);
    }
    s
}

/// The URL of a queue (to fetch it).
pub fn queue_url(base_url: &str, queue_id: u64) -> (r: Result<ParsedUrl>)
    ensures
        match url_join(base_url@, queue_path(queue_id)) {
            None => r matches Err(Error::Url(_)),
            Some(u) => r matches Ok(p) && parsed_view(p) == u,
        },
{
    let path = queue_path_string(queue_id, "");
    proof {
        reveal_strlit("");
        assert(path@ =~= queue_path(queue_id));
    }
    join_path(base_url, path.as_str())
}

/// The source `uri` of one item appended to a queue.
pub open spec fn appended_item_uri(item_key: Seq<char>) -> Seq<char> {
    "server://./"@ + LIBRARY_IDENTIFIER@ + item_key
}

/// The pairs that append an item: its `uri`, and `next=1` to play it
/// next.
pub open spec fn add_item_pairs(item_key: Seq<char>, play_next: bool) -> Seq<(Seq<char>, Seq<char>)> {
    if play_next {
        seq![("uri"@, appended_item_uri(item_key)), ("next"@, "1"@)]
    } else {
        seq![("uri"@, appended_item_uri(item_key))]
    }
}

/// The URL that appends the item with key `item_key` to a queue.
pub fn add_item_url(base_url: &str, queue_id: u64, item_key: &str, play_next: bool) -> (r: Result<
    ParsedUrl,
>)
    ensures
        match url_join(base_url@, queue_path(queue_id)) {
            None => r matches Err(Error::Url(_)),
            Some(u) => r matches Ok(p) && parsed_view(p) == with_query(
                u,
                add_item_pairs(item_key@, play_next),
            ),
        },
{
    let url = queue_url(base_url, queue_id)?;
    let mut uri = owned("server://./");
    push_str(&mut uri, LIBRARY_IDENTIFIER);
    push_str(&mut uri, item_key);
    let mut pairs: Vec<(String, String)> = Vec::new();
    pairs.push((owned("uri"), uri));
    if play_next {
        pairs.push((owned("next"), owned("1")));
    }
    proof {
        assert(pairs_view(pairs@) =~= add_item_pairs(item_key@, play_next));
    }
    Ok(append_query(url, &pairs))
}

/// The URL that moves an item of a queue after another one (to the
/// front without one).
pub fn move_item_url(base_url: &str, queue_id: u64, item_id: u64, after: Option<u64>) -> (r:
    Result<ParsedUrl>)
    ensures
        match url_join(base_url@, queue_item_path(queue_id, item_id) + "/move"@) {
            None => r matches Err(Error::Url(_)),
            Some(u) => r matches Ok(p) && parsed_view(p) == match after {
                None => u,
                Some(a) => with_query(u, seq![("after"@, dec_chars(a as nat))]),
            },
        },
{
    let path = queue_item_path_string(queue_id, item_id, "/move");
    let url = join_path(base_url, path.as_str())?;
    match after {
        None => Ok(url),
        Some(a) => {
            let mut pairs: Vec<(String, String)> = Vec::new();
            pairs.push((owned("after"), fmt_u64(a)));
            proof {
                assert(pairs_view(pairs@) =~= seq![("after"@, dec_chars(a as nat))]);
            }
            Ok(append_query(url, &pairs))
        },
    }
}

/// The URL that removes one item of a queue.
pub fn remove_item_url(base_url: &str, queue_id: u64, item_id: u64) -> (r: Result<ParsedUrl>)
    ensures
        match url_join(base_url@, queue_item_path(queue_id, item_id)) {
            None => r matches Err(Error::Url(_)),
            Some(u) => r matches Ok(p) && parsed_view(p) == u,
        },
{
    let path = queue_item_path_string(queue_id, item_id, "");
    proof {
        reveal_strlit("");
        assert(path@ =~= queue_item_path(queue_id, item_id));
    }
    join_path(base_url, path.as_str())
}

/// The URL that empties a queue.
pub fn clear_url(base_url: &str, queue_id: u64) -> (r: Result<ParsedUrl>)
    ensures
        match url_join(base_url@, queue_path(queue_id) + "/items"@) {
            None => r matches Err(Error::Url(_)),
            Some(u) => r matches Ok(p) && parsed_view(p) == u,
        },
{
    let path = queue_path_string(queue_id, "/items");
    join_path(base_url, path.as_str())
}

/// The rating keys of `v`, in order.
pub open spec fn rating_keys_of(v: Seq<QueueItemRef>) -> Seq<u64> {
    Seq::new(v.len(), |i: int| v[i].rating_key)
}

/// A queue made from several items names every one of them: the
/// request's `uri` pair is the `library://` directory URI of all their
/// rating keys, in order, and percent-decoding the path of that URI
/// gives `/library/metadata/` then each key in decimal, comma-separated.
pub proof fn law_queue_from_items_names_every_item(
    r: PlayQueueRequest,
    v: Vec<QueueItemRef>,
    machine_id: Seq<char>,
)
    requires
        v@.len() > 0,
    ensures
        request_pairs(r, QueueSource::Items(v), machine_id).contains(
            ("uri"@, library_directory_uri_spec(rating_keys_of(v@))),
        ),
        percent_decoded(library_directory_uri_spec(rating_keys_of(v@)).skip(21)) == Some(
            "/library/metadata/"@ + joined(
                Seq::new(v@.len(), |i: int| dec_chars(v@[i].rating_key as nat)),
                ',',
            ),
        ),
{
    reveal_strlit("library:///directory/");
    let keys = rating_keys_of(v@);
    assert(keys =~= item_keys(v@));
    let p = request_pairs(r, QueueSource::Items(v), machine_id);
    assert(p[6] == ("uri"@, library_directory_uri_spec(keys)));
    let path = "/library/metadata/"@ + joined(key_digits(keys), ',');
    assert(key_digits(keys) =~= Seq::new(v@.len(), |i: int| dec_chars(v@[i].rating_key as nat)));
    assert(library_directory_uri_spec(keys).skip(21) =~= pct_encoded(encode_utf8(path)));
    law_percent_decoding_inverts_encoding(path);
}

} // verus!
