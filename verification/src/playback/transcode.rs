//! Universal-transcoder URLs: the options a client passes and the
//! `start.m3u8` / `start.mpd` URL they render to.

use vstd::prelude::*;

use crate::error::{Error, Result};
use crate::headers::opt_view;
use crate::ids::PlexToken;
use crate::text::{all_digits, debug_str, str_debug, chars_of, dec_chars, fmt_u64, owned, push_char, push_str, split_on, split_str, views};
use crate::urls::{ParsedUrl, append_query, join_url, pairs_view, parsed_view, url_join, with_query};

verus! {

broadcast use vstd::string::group_string_axioms;

/// Streaming protocol of a transcode session.
#[derive(Debug, Copy, Clone, PartialEq, Eq)]
pub enum TranscodeProtocol {
    /// HTTP Live Streaming (`start.m3u8`).
    Hls,
    /// MPEG-DASH (`start.mpd`).
    Dash,
}

impl Default for TranscodeProtocol {
    fn default() -> (r: Self)
        ensures
            r == TranscodeProtocol::Hls,
    {
        TranscodeProtocol::Hls
    }
}

/// The playlist extension of a protocol.
pub open spec fn container_ext_spec(p: TranscodeProtocol) -> Seq<char> {
    match p {
        TranscodeProtocol::Hls => "m3u8"@,
        TranscodeProtocol::Dash => "mpd"@,
    }
}

/// The `protocol` query value of a protocol.
pub open spec fn protocol_wire(p: TranscodeProtocol) -> Seq<char> {
    match p {
        TranscodeProtocol::Hls => "hls"@,
        TranscodeProtocol::Dash => "dash"@,
    }
}

impl TranscodeProtocol {
    /// File extension of the playlist (`m3u8` / `mpd`).
    pub fn container_ext(self) -> (r: &'static str)
        ensures
            r@ == container_ext_spec(self),
    {
        match self {
            TranscodeProtocol::Hls => "m3u8",
            TranscodeProtocol::Dash => "mpd",
        }
    }

    /// The `protocol` query value (`hls` / `dash`).
    pub fn as_wire(self) -> (r: &'static str)
        ensures
            r@ == protocol_wire(self),
    {
        match self {
            TranscodeProtocol::Hls => "hls",
            TranscodeProtocol::Dash => "dash",
        }
    }
}

/// Whether the transcoder produces video or audio.
#[derive(Debug, Copy, Clone, PartialEq, Eq)]
pub enum StreamKind {
    /// `/video/:/transcode/...`.
    Video,
    /// `/audio/:/transcode/...`.
    Audio,
}

impl Default for StreamKind {
    fn default() -> (r: Self)
        ensures
            r == StreamKind::Video,
    {
        StreamKind::Video
    }
}

/// The leading path segment of a stream kind.
pub open spec fn stream_path(k: StreamKind) -> Seq<char> {
    match k {
        StreamKind::Video => "video"@,
        StreamKind::Audio => "audio"@,
    }
}

impl StreamKind {
    /// The leading path segment (`video` / `audio`).
    pub fn as_path(self) -> (r: &'static str)
        ensures
            r@ == stream_path(self),
    {
        match self {
            StreamKind::Video => "video",
            StreamKind::Audio => "audio",
        }
    }
}

/// Where the client is relative to the server.
#[derive(Debug, Copy, Clone, PartialEq, Eq)]
pub enum LocationHint {
    /// Same network.
    Lan,
    /// Across the internet.
    Wan,
}

/// The `location` query value of a hint.
pub open spec fn location_wire(l: LocationHint) -> Seq<char> {
    match l {
        LocationHint::Lan => "lan"@,
        LocationHint::Wan => "wan"@,
    }
}

impl LocationHint {
    /// The `location` query value (`lan` / `wan`).
    pub fn as_wire(self) -> (r: &'static str)
        ensures
            r@ == location_wire(self),
    {
        match self {
            LocationHint::Lan => "lan",
            LocationHint::Wan => "wan",
        }
    }
}

/// Options of a universal-transcoder session.
#[derive(Debug)]
#[non_exhaustive]
pub struct TranscodeOptions {
    /// Streaming protocol.
    pub protocol: TranscodeProtocol,
    /// Video or audio transcode.
    pub stream_kind: StreamKind,
    /// Which media version of the item.
    pub media_index: u32,
    /// Which part of that media.
    pub part_index: u32,
    /// Start offset in milliseconds.
    pub offset_ms: u64,
    /// Seek to the nearest keyframe.
    pub fast_seek: bool,
    /// Copy timestamps.
    pub copy_ts: bool,
    /// Disable direct stream (`directStream=0`).
    pub force_re_encode: bool,
    /// Disable direct play (`directPlay=0`).
    pub force_transcode: bool,
    /// Bitrate cap in kbps (at least 64).
    pub max_video_bitrate: Option<u32>,
    /// Target resolution `WxH`.
    pub video_resolution: Option<String>,
    /// Quality 0–100.
    pub video_quality: Option<u8>,
    /// Subtitle size 0–200.
    pub subtitle_size: Option<u8>,
    /// Audio boost 0–200.
    pub audio_boost: Option<u8>,
    /// LAN / WAN hint.
    pub location: Option<LocationHint>,
    /// Transcoder buffer size in kilobytes.
    pub media_buffer_size: Option<u32>,
    /// `X-Plex-Platform` to announce (default `Chrome`).
    pub platform: Option<String>,
    /// `X-Plex-Session-Identifier`.
    pub session_id: Option<String>,
}

/// The default options: HLS video of the first media and part from the
/// start, with fast seek and copied timestamps, nothing forced and no
/// caps.
pub open spec fn default_options(o: TranscodeOptions) -> bool {
    &&& o.protocol == TranscodeProtocol::Hls
    &&& o.stream_kind == StreamKind::Video
    &&& o.media_index == 0 && o.part_index == 0 && o.offset_ms == 0
    &&& o.fast_seek && o.copy_ts
    &&& !o.force_re_encode && !o.force_transcode
    &&& o.max_video_bitrate is None && o.video_resolution is None
    &&& o.video_quality is None && o.subtitle_size is None && o.audio_boost is None
    &&& o.location is None && o.media_buffer_size is None
    &&& o.platform is None && o.session_id is None
}

impl Default for TranscodeOptions {
    fn default() -> (o: Self)
        ensures
            default_options(o),
    {
        TranscodeOptions {
            protocol: TranscodeProtocol::Hls,
            stream_kind: StreamKind::Video,
            media_index: 0,
            part_index: 0,
            offset_ms: 0,
            fast_seek: true,
            copy_ts: true,
            force_re_encode: false,
            force_transcode: false,
            max_video_bitrate: None,
            video_resolution: None,
            video_quality: None,
            subtitle_size: None,
            audio_boost: None,
            location: None,
            media_buffer_size: None,
            platform: None,
            session_id: None,
        }
    }
}

/// `"1"` or `"0"`.
pub open spec fn bool_wire_spec(b: bool) -> Seq<char> {
    if b { "1"@ } else { "0"@ }
}

/// The transcoder's spelling of a flag.
pub fn bool_wire(b: bool) -> (r: &'static str)
    ensures
        r@ == bool_wire_spec(b),
{
    if b {
        "1"
    } else {
        "0"
    }
}

/// `WxH`: exactly one `x`, with a non-empty run of ASCII digits on each
/// side.
pub open spec fn valid_resolution(s: Seq<char>) -> bool {
    let parts = split_on(s, 'x');
    &&& parts.len() == 2
    &&& parts[0].len() > 0 && all_digits(parts[0])
    &&& parts[1].len() > 0 && all_digits(parts[1])
}

/// `true` when every character of `s` is an ASCII digit.
fn all_digit_chars(s: &String) -> (b: bool)
    ensures
        b == all_digits(s@),
{
    let cs = chars_of(s.as_str());
    let mut i: usize = 0;
    while i < cs.len()
        invariant
            i <= cs@.len(),
            cs@ == s@,
            all_digits(cs@.take(i as int)),
        decreases cs@.len() - i,
    {
        if !('0' <= cs[i] && cs[i] <= '9') {
            proof {
                assert(s@[i as int] == cs@[i as int]);
            }
            return false;
        }
        proof {
            assert forall|j: int| 0 <= j < i + 1 implies '0' <= #[trigger] cs@.take(i + 1)[j]
                <= '9' by {
                if j < i {
                    assert(cs@.take(i + 1)[j] == cs@.take(i as int)[j]);
                }
            }
        }
        i += 1;
    }
    proof {
        assert(cs@.take(cs@.len() as int) =~= s@);
    }
    true
}

/// Is `s` of the shape `WxH` (e.g. `1920x1080`)?
pub fn is_valid_resolution(s: &str) -> (b: bool)
    ensures
        b == valid_resolution(s@),
{
    let parts = split_str(s, 'x');
    proof {
        assert(views(parts@).len() == parts@.len());
    }
    if parts.len() != 2 {
        return false;
    }
    proof {
        assert(views(parts@)[0] == parts@[0]@);
        assert(views(parts@)[1] == parts@[1]@);
    }
    let w = &parts[0];
    let h = &parts[1];
    !w.as_str().is_empty() && !h.as_str().is_empty() && all_digit_chars(w) && all_digit_chars(h)
}

/// A single optional pair.
pub open spec fn opt_pair(name: Seq<char>, value: Option<Seq<char>>) -> Seq<(Seq<char>, Seq<char>)> {
    match value {
        Some(v) => seq![(name, v)],
        None => seq![],
    }
}

/// The transcoder path: `/<video|audio>/:/transcode/universal/start.<ext>`.
pub open spec fn transcode_path(o: TranscodeOptions) -> Seq<char> {
    seq!['/'] + stream_path(o.stream_kind) + "/:/transcode/universal/start."@ + container_ext_spec(
        o.protocol,
    )
}

/// The leading pairs of a transcode URL: item, protocol, indices,
/// offset and the two seek flags.
pub open spec fn head_pairs(o: TranscodeOptions, item_key: Seq<char>) -> Seq<(Seq<char>, Seq<char>)> {
    seq![
        ("path"@, item_key),
        ("protocol"@, protocol_wire(o.protocol)),
        ("mediaIndex"@, dec_chars(o.media_index as nat)),
        ("partIndex"@, dec_chars(o.part_index as nat)),
        ("offset"@, dec_chars(o.offset_ms as nat)),
        ("fastSeek"@, bool_wire_spec(o.fast_seek)),
        ("copyts"@, bool_wire_spec(o.copy_ts)),
    ]
}

/// An optional number as decimal text.
pub open spec fn opt_dec(n: Option<u64>) -> Option<Seq<char>> {
    match n {
        Some(v) => Some(dec_chars(v as nat)),
        None => None,
    }
}

/// Widened optional `u32`.
pub open spec fn w32(n: Option<u32>) -> Option<u64> {
    match n {
        Some(v) => Some(v as u64),
        None => None,
    }
}

/// Widened optional `u8`.
pub open spec fn w8(n: Option<u8>) -> Option<u64> {
    match n {
        Some(v) => Some(v as u64),
        None => None,
    }
}

/// The forcing flags, each when on.
pub open spec fn flag_pairs(o: TranscodeOptions) -> Seq<(Seq<char>, Seq<char>)> {
    (if o.force_transcode { seq![("directPlay"@, "0"@)] } else { seq![] }) + (if o.force_re_encode {
        seq![("directStream"@, "0"@)]
    } else {
        seq![]
    })
}

/// The location hint, when set.
pub open spec fn location_pair(o: TranscodeOptions) -> Seq<(Seq<char>, Seq<char>)> {
    opt_pair(
        "location"@,
        match o.location {
            Some(l) => Some(location_wire(l)),
            None => None,
        },
    )
}

/// Each cap or hint that is set, in order.
pub open spec fn cap_pairs(o: TranscodeOptions) -> Seq<(Seq<char>, Seq<char>)> {
    opt_pair("maxVideoBitrate"@, opt_dec(w32(o.max_video_bitrate))) + opt_pair(
        "videoResolution"@,
        opt_view(o.video_resolution),
    ) + opt_pair("videoQuality"@, opt_dec(w8(o.video_quality))) + opt_pair(
        "subtitleSize"@,
        opt_dec(w8(o.subtitle_size)),
    ) + opt_pair("audioBoost"@, opt_dec(w8(o.audio_boost))) + location_pair(o) + opt_pair(
        "mediaBufferSize"@,
        opt_dec(w32(o.media_buffer_size)),
    )
}

/// The optional pairs: the forcing flags, then the caps and hints.
pub open spec fn option_pairs(o: TranscodeOptions) -> Seq<(Seq<char>, Seq<char>)> {
    flag_pairs(o) + cap_pairs(o)
}

/// The closing pairs: platform (default `Chrome`), session id when
/// set, and the token.
pub open spec fn tail_pairs(o: TranscodeOptions, token: Seq<char>) -> Seq<(Seq<char>, Seq<char>)> {
    seq![
        (
            "X-Plex-Platform"@,
            match o.platform {
                Some(p) => p@,
                None => "Chrome"@,
            },
        ),
    ] + opt_pair("X-Plex-Session-Identifier"@, opt_view(o.session_id)) + seq![
        ("X-Plex-Token"@, token),
    ]
}

/// The query pairs of a transcode URL, in order.
pub open spec fn transcode_pairs(o: TranscodeOptions, item_key: Seq<char>, token: Seq<char>) -> Seq<
    (Seq<char>, Seq<char>),
> {
    head_pairs(o, item_key) + option_pairs(o) + tail_pairs(o, token)
}

/// Push `(name, value)`.
fn push_pair(v: &mut Vec<(String, String)>, name: &str, value: &str)
    ensures
        pairs_view(final(v)@) == pairs_view(old(v)@).push((name@, value@)),
{
    v.push((owned(name), owned(value)));
    proof {
        assert(pairs_view(v@) =~= pairs_view(old(v)@).push((name@, value@)));
    }
}

/// Push `(name, value)` when `value` is present.
fn push_opt_num(v: &mut Vec<(String, String)>, name: &str, value: Option<u64>)
    ensures
        pairs_view(final(v)@) == pairs_view(old(v)@) + opt_pair(name@, opt_dec(value)),
{
    if let Some(n) = value {
        let s = fmt_u64(n);
        push_pair(v, name, s.as_str());
    }
    proof {
        assert(pairs_view(v@) =~= pairs_view(old(v)@) + opt_pair(name@, opt_dec(value)));
    }
}

/// Push `(name, value)` when `value` is present.
fn push_opt_str(v: &mut Vec<(String, String)>, name: &str, value: &Option<String>)
    ensures
        pairs_view(final(v)@) == pairs_view(old(v)@) + opt_pair(name@, opt_view(*value)),
{
    if let Some(s) = value {
        push_pair(v, name, s.as_str());
    }
    proof {
        assert(pairs_view(v@) =~= pairs_view(old(v)@) + opt_pair(name@, opt_view(*value)));
    }
}

/// Widen an optional `u32`.
fn wide32(x: Option<u32>) -> (r: Option<u64>)
    ensures
        r == w32(x),
{
    match x {
        Some(n) => Some(n as u64),
        None => None,
    }
}

/// Widen an optional `u8`.
fn wide8(x: Option<u8>) -> (r: Option<u64>)
    ensures
        r == w8(x),
{
    match x {
        Some(n) => Some(n as u64),
        None => None,
    }
}

impl TranscodeOptions {
    /// The default options.
    pub fn new() -> (o: Self)
        ensures
            default_options(o),
    {
        Self::default()
    }

    /// Set the streaming protocol.
    pub fn protocol(self, protocol: TranscodeProtocol) -> (r: Self)
        ensures
            r == (TranscodeOptions { protocol, ..self }),
    {
        TranscodeOptions { protocol, ..self }
    }

    /// Set video or audio.
    pub fn stream_kind(self, kind: StreamKind) -> (r: Self)
        ensures
            r == (TranscodeOptions { stream_kind: kind, ..self }),
    {
        TranscodeOptions { stream_kind: kind, ..self }
    }

    /// Set the start offset in milliseconds.
    pub fn offset_ms(self, ms: u64) -> (r: Self)
        ensures
            r == (TranscodeOptions { offset_ms: ms, ..self }),
    {
        TranscodeOptions { offset_ms: ms, ..self }
    }

    /// Cap the video bitrate; values below 64 kbps are raised to 64.
    pub fn max_video_bitrate(self, kbps: u32) -> (r: Self)
        ensures
            r == (TranscodeOptions {
                max_video_bitrate: Some(if kbps < 64 { 64 } else { kbps }),
                ..self
            }),
    {
        TranscodeOptions { max_video_bitrate: Some(if kbps < 64 { 64 } else { kbps }), ..self }
    }

    /// Set the target resolution (`WxH`, checked when the URL is built).
    pub fn video_resolution(self, res: &str) -> (r: Self)
        ensures
            opt_view(r.video_resolution) == Some(res@),
            r == (TranscodeOptions { video_resolution: r.video_resolution, ..self }),
    {
        TranscodeOptions { video_resolution: Some(owned(res)), ..self }
    }

    /// Set the quality, capped at 100.
    pub fn video_quality(self, q: u8) -> (r: Self)
        ensures
            r == (TranscodeOptions { video_quality: Some(if q > 100 { 100 } else { q }), ..self }),
    {
        TranscodeOptions { video_quality: Some(if q > 100 { 100 } else { q }), ..self }
    }

    /// Set the subtitle size, capped at 200.
    pub fn subtitle_size(self, n: u8) -> (r: Self)
        ensures
            r == (TranscodeOptions { subtitle_size: Some(if n > 200 { 200 } else { n }), ..self }),
    {
        TranscodeOptions { subtitle_size: Some(if n > 200 { 200 } else { n }), ..self }
    }

    /// Set the audio boost, capped at 200.
    pub fn audio_boost(self, n: u8) -> (r: Self)
        ensures
            r == (TranscodeOptions { audio_boost: Some(if n > 200 { 200 } else { n }), ..self }),
    {
        TranscodeOptions { audio_boost: Some(if n > 200 { 200 } else { n }), ..self }
    }

    /// Set the LAN / WAN hint.
    pub fn location(self, loc: LocationHint) -> (r: Self)
        ensures
            r == (TranscodeOptions { location: Some(loc), ..self }),
    {
        TranscodeOptions { location: Some(loc), ..self }
    }

    /// Set the announced platform.
    pub fn platform(self, p: &str) -> (r: Self)
        ensures
            opt_view(r.platform) == Some(p@),
            r == (TranscodeOptions { platform: r.platform, ..self }),
    {
        TranscodeOptions { platform: Some(owned(p)), ..self }
    }

    /// Set the session identifier.
    pub fn session_id(self, id: &str) -> (r: Self)
        ensures
            opt_view(r.session_id) == Some(id@),
            r == (TranscodeOptions { session_id: r.session_id, ..self }),
    {
        TranscodeOptions { session_id: Some(owned(id)), ..self }
    }

    /// Disable direct play.
    pub fn force_transcode(self, on: bool) -> (r: Self)
        ensures
            r == (TranscodeOptions { force_transcode: on, ..self }),
    {
        TranscodeOptions { force_transcode: on, ..self }
    }

    /// Disable direct stream.
    pub fn force_re_encode(self, on: bool) -> (r: Self)
        ensures
            r == (TranscodeOptions { force_re_encode: on, ..self }),
    {
        TranscodeOptions { force_re_encode: on, ..self }
    }

    /// Choose the media version.
    pub fn media_index(self, idx: u32) -> (r: Self)
        ensures
            r == (TranscodeOptions { media_index: idx, ..self }),
    {
        TranscodeOptions { media_index: idx, ..self }
    }

    /// Choose the part.
    pub fn part_index(self, idx: u32) -> (r: Self)
        ensures
            r == (TranscodeOptions { part_index: idx, ..self }),
    {
        TranscodeOptions { part_index: idx, ..self }
    }

    /// Append the leading pairs.
    fn push_head(&self, v: &mut Vec<(String, String)>, item_key: &str)
        ensures
            pairs_view(final(v)@) == pairs_view(old(v)@) + head_pairs(*self, item_key@),
    {
        push_pair(v, "path", item_key);
        push_pair(v, "protocol", self.protocol.as_wire());
        let mi = fmt_u64(self.media_index as u64);
        push_pair(v, "mediaIndex", mi.as_str());
        let pi = fmt_u64(self.part_index as u64);
        push_pair(v, "partIndex", pi.as_str());
        let off = fmt_u64(self.offset_ms);
        push_pair(v, "offset", off.as_str());
        push_pair(v, "fastSeek", bool_wire(self.fast_seek));
        push_pair(v, "copyts", bool_wire(self.copy_ts));
        proof {
            assert(pairs_view(v@) =~= pairs_view(old(v)@) + head_pairs(*self, item_key@));
        }
    }

    /// Append the forcing flags.
    fn push_flags(&self, v: &mut Vec<(String, String)>)
        ensures
            pairs_view(final(v)@) == pairs_view(old(v)@) + flag_pairs(*self),
    {
        let ghost start = pairs_view(v@);
        if self.force_transcode {
            push_pair(v, "directPlay", "0");
        }
        let ghost mid = pairs_view(v@);
        if self.force_re_encode {
            push_pair(v, "directStream", "0");
        }
        proof {
            assert(mid =~= start + (if self.force_transcode {
                seq![("directPlay"@, "0"@)]
            } else {
                seq![]
            }));
            assert(pairs_view(v@) =~= start + flag_pairs(*self));
        }
    }

    /// Append the caps and hints.
    fn push_caps(&self, v: &mut Vec<(String, String)>)
        ensures
            pairs_view(final(v)@) == pairs_view(old(v)@) + cap_pairs(*self),
    {
        let ghost s0 = pairs_view(v@);
        push_opt_num(v, "maxVideoBitrate", wide32(self.max_video_bitrate));
        let ghost s1 = pairs_view(v@);
        push_opt_str(v, "videoResolution", &self.video_resolution);
        let ghost s2 = pairs_view(v@);
        push_opt_num(v, "videoQuality", wide8(self.video_quality));
        let ghost s3 = pairs_view(v@);
        push_opt_num(v, "subtitleSize", wide8(self.subtitle_size));
        let ghost s4 = pairs_view(v@);
        push_opt_num(v, "audioBoost", wide8(self.audio_boost));
        let ghost s5 = pairs_view(v@);
        if let Some(loc) = self.location {
            push_pair(v, "location", loc.as_wire());
        }
        let ghost s6 = pairs_view(v@);
        proof {
            assert(s6 =~= s5 + location_pair(*self));
        }
        push_opt_num(v, "mediaBufferSize", wide32(self.media_buffer_size));
        proof {
            let c = cap_pairs(*self);
            assert(pairs_view(v@) =~= s0 + c);
        }
    }

    /// Append the optional pairs.
    fn push_options(&self, v: &mut Vec<(String, String)>)
        ensures
            pairs_view(final(v)@) == pairs_view(old(v)@) + option_pairs(*self),
    {
        let ghost start = pairs_view(v@);
        self.push_flags(v);
        self.push_caps(v);
        proof {
            assert(pairs_view(v@) =~= start + option_pairs(*self));
        }
    }

    /// Append the closing pairs.
    fn push_tail(&self, v: &mut Vec<(String, String)>, token: &str)
        ensures
            pairs_view(final(v)@) == pairs_view(old(v)@) + tail_pairs(*self, token@),
    {
        match &self.platform {
            Some(p) => push_pair(v, "X-Plex-Platform", p.as_str()),
            None => push_pair(v, "X-Plex-Platform", "Chrome"),
        }
        push_opt_str(v, "X-Plex-Session-Identifier", &self.session_id);
        push_pair(v, "X-Plex-Token", token);
        proof {
            assert(pairs_view(v@) =~= pairs_view(old(v)@) + tail_pairs(*self, token@));
        }
    }

    /// The query pairs of the transcode URL for `item_key`.
    pub fn query_pairs(&self, item_key: &str, token: &str) -> (v: Vec<(String, String)>)
        ensures
            pairs_view(v@) == transcode_pairs(*self, item_key@, token@),
    {
        let mut v: Vec<(String, String)> = Vec::new();
        self.push_head(&mut v, item_key);
        self.push_options(&mut v);
        self.push_tail(&mut v, token);
        proof {
            assert(pairs_view(v@) =~= transcode_pairs(*self, item_key@, token@));
        }
        v
    }

    /// The transcoder path for these options.
    pub fn path(&self) -> (p: String)
        ensures
            p@ == transcode_path(*self),
    {
        let mut p = owned("/");
        push_str(&mut p, self.stream_kind.as_path());
        push_str(&mut p, "/:/transcode/universal/start.");
        push_str(&mut p, self.protocol.container_ext());
        proof {
            reveal_strlit("/");
        }
        p
    }

    /// Build the transcode URL for `item_key` on the server at
    /// `base_url` (the serialization of its base URL), authenticated by
    /// `token`.
    ///
    /// Fails with [`Error::Config`] when the resolution is not `WxH`,
    /// then when there is no token, and with [`Error::Url`] when the
    /// path does not join onto the base URL.
    pub fn build_for(&self, base_url: &str, token: Option<&PlexToken>, item_key: &str) -> (r:
        Result<ParsedUrl>)
        ensures
            (match self.video_resolution {
                Some(res) => !valid_resolution(res@),
                None => false,
            }) ==> (r matches Err(Error::Config(m)) && m@ == "video_resolution must be WxH, got "@
                + str_debug(self.video_resolution->0@)),
            (match self.video_resolution {
                Some(res) => valid_resolution(res@),
                None => true,
            }) ==> {
                match token {
                    None => r matches Err(Error::Config(m)) && m@
                        == "transcode: PMS has no token; cannot build URL"@,
                    Some(t) => match url_join(base_url@, transcode_path(*self)) {
                        None => r matches Err(Error::Url(_)),
                        Some(u) => r matches Ok(p) && parsed_view(p) == with_query(
                            u,
                            transcode_pairs(*self, item_key@, t@),
                        ),
                    },
                }
            },
    {
        if let Some(res) = &self.video_resolution {
            if !is_valid_resolution(res.as_str()) {
                let mut msg = owned("video_resolution must be WxH, got ");
                let d = debug_str(res.as_str());
                push_str(&mut msg, d.as_str());
                return Err(Error::Config(msg));
            }
        }
        let tok = match token {
            Some(t) => t.expose(),
            None => {
                return Err(Error::Config(owned("transcode: PMS has no token; cannot build URL")));
            },
        };
        let path = self.path();
        let joined = match join_url(base_url, path.as_str()) {
            Ok(u) => u,
            Err(m) => {
                return Err(Error::Url(m));
            },
        };
        let pairs = self.query_pairs(item_key, tok);
        Ok(append_query(joined, &pairs))
    }
}

proof fn lemma_contains_left<A>(a: Seq<A>, b: Seq<A>, x: A)
    requires
        a.contains(x),
    ensures
        (a + b).contains(x),
{
    let k = choose|k: int| 0 <= k < a.len() && a[k] == x;
    assert((a + b)[k] == x);
}

proof fn lemma_contains_right<A>(a: Seq<A>, b: Seq<A>, x: A)
    requires
        b.contains(x),
    ensures
        (a + b).contains(x),
{
    let k = choose|k: int| 0 <= k < b.len() && b[k] == x;
    assert((a + b)[a.len() + k] == x);
}

proof fn lemma_opt_pair_contains(name: Seq<char>, v: Seq<char>)
    ensures
        opt_pair(name, Some(v)).contains((name, v)),
{
    assert(opt_pair(name, Some(v))[0] == (name, v));
}

/// `x` in the `i`-th of seven sequences is in their concatenation.
proof fn lemma_in_seven<A>(p1: Seq<A>, p2: Seq<A>, p3: Seq<A>, p4: Seq<A>, p5: Seq<A>, p6: Seq<A>, p7: Seq<A>, x: A)
    requires
        p1.contains(x) || p2.contains(x) || p3.contains(x) || p4.contains(x) || p5.contains(x)
            || p6.contains(x) || p7.contains(x),
    ensures
        (p1 + p2 + p3 + p4 + p5 + p6 + p7).contains(x),
{
    let a = p1 + p2;
    let b = a + p3;
    let c = b + p4;
    let d = c + p5;
    let e = d + p6;
    if p1.contains(x) {
        lemma_contains_left(p1, p2, x);
    }
    if p2.contains(x) {
        lemma_contains_right(p1, p2, x);
    }
    if a.contains(x) {
        lemma_contains_left(a, p3, x);
    }
    if p3.contains(x) {
        lemma_contains_right(a, p3, x);
    }
    if b.contains(x) {
        lemma_contains_left(b, p4, x);
    }
    if p4.contains(x) {
        lemma_contains_right(b, p4, x);
    }
    if c.contains(x) {
        lemma_contains_left(c, p5, x);
    }
    if p5.contains(x) {
        lemma_contains_right(c, p5, x);
    }
    if d.contains(x) {
        lemma_contains_left(d, p6, x);
    }
    if p6.contains(x) {
        lemma_contains_right(d, p6, x);
    }
    if e.contains(x) {
        lemma_contains_left(e, p7, x);
    }
    if p7.contains(x) {
        lemma_contains_right(e, p7, x);
    }
}

/// Every cap or hint that is set is among the cap pairs.
proof fn lemma_caps_listed(o: TranscodeOptions)
    ensures
        o.max_video_bitrate matches Some(b) ==> cap_pairs(o).contains(("maxVideoBitrate"@, dec_chars(b as nat))),
        o.video_resolution matches Some(r) ==> cap_pairs(o).contains(("videoResolution"@, r@)),
        o.video_quality matches Some(q) ==> cap_pairs(o).contains(("videoQuality"@, dec_chars(q as nat))),
        o.subtitle_size matches Some(n) ==> cap_pairs(o).contains(("subtitleSize"@, dec_chars(n as nat))),
        o.audio_boost matches Some(n) ==> cap_pairs(o).contains(("audioBoost"@, dec_chars(n as nat))),
        o.location matches Some(l) ==> cap_pairs(o).contains(("location"@, location_wire(l))),
        o.media_buffer_size matches Some(n) ==> cap_pairs(o).contains(("mediaBufferSize"@, dec_chars(n as nat))),
{
    let p1 = opt_pair("maxVideoBitrate"@, opt_dec(w32(o.max_video_bitrate)));
    let p2 = opt_pair("videoResolution"@, opt_view(o.video_resolution));
    let p3 = opt_pair("videoQuality"@, opt_dec(w8(o.video_quality)));
    let p4 = opt_pair("subtitleSize"@, opt_dec(w8(o.subtitle_size)));
    let p5 = opt_pair("audioBoost"@, opt_dec(w8(o.audio_boost)));
    let p6 = location_pair(o);
    let p7 = opt_pair("mediaBufferSize"@, opt_dec(w32(o.media_buffer_size)));
    assert(cap_pairs(o) == p1 + p2 + p3 + p4 + p5 + p6 + p7);
    if let Some(b) = o.max_video_bitrate {
        assert(p1[0] == ("maxVideoBitrate"@, dec_chars(b as nat)));
        lemma_in_seven(p1, p2, p3, p4, p5, p6, p7, ("maxVideoBitrate"@, dec_chars(b as nat)));
    }
    if let Some(r) = o.video_resolution {
        assert(p2[0] == ("videoResolution"@, r@));
        lemma_in_seven(p1, p2, p3, p4, p5, p6, p7, ("videoResolution"@, r@));
    }
    if let Some(q) = o.video_quality {
        assert(p3[0] == ("videoQuality"@, dec_chars(q as nat)));
        lemma_in_seven(p1, p2, p3, p4, p5, p6, p7, ("videoQuality"@, dec_chars(q as nat)));
    }
    if let Some(n) = o.subtitle_size {
        assert(p4[0] == ("subtitleSize"@, dec_chars(n as nat)));
        lemma_in_seven(p1, p2, p3, p4, p5, p6, p7, ("subtitleSize"@, dec_chars(n as nat)));
    }
    if let Some(n) = o.audio_boost {
        assert(p5[0] == ("audioBoost"@, dec_chars(n as nat)));
        lemma_in_seven(p1, p2, p3, p4, p5, p6, p7, ("audioBoost"@, dec_chars(n as nat)));
    }
    if let Some(l) = o.location {
        assert(p6[0] == ("location"@, location_wire(l)));
        lemma_in_seven(p1, p2, p3, p4, p5, p6, p7, ("location"@, location_wire(l)));
    }
    if let Some(n) = o.media_buffer_size {
        assert(p7[0] == ("mediaBufferSize"@, dec_chars(n as nat)));
        lemma_in_seven(p1, p2, p3, p4, p5, p6, p7, ("mediaBufferSize"@, dec_chars(n as nat)));
    }
}

/// Whatever the caller asked of the transcoder reaches the URL with its
/// own value: each cap and hint that is set (bitrate, resolution,
/// quality, subtitle size, audio boost, location, buffer size), each
/// forcing flag that is on, and the session id when set, are pairs of
/// the query. The item's path is the first pair and the token the last.
pub proof fn law_transcode_options_reach_the_url(o: TranscodeOptions, item_key: Seq<char>, token: Seq<char>)
    ensures
        o.max_video_bitrate matches Some(b) ==> transcode_pairs(o, item_key, token).contains(
            ("maxVideoBitrate"@, dec_chars(b as nat)),
        ),
        o.video_resolution matches Some(r) ==> transcode_pairs(o, item_key, token).contains(
            ("videoResolution"@, r@),
        ),
        o.video_quality matches Some(q) ==> transcode_pairs(o, item_key, token).contains(
            ("videoQuality"@, dec_chars(q as nat)),
        ),
        o.subtitle_size matches Some(n) ==> transcode_pairs(o, item_key, token).contains(
            ("subtitleSize"@, dec_chars(n as nat)),
        ),
        o.audio_boost matches Some(n) ==> transcode_pairs(o, item_key, token).contains(
            ("audioBoost"@, dec_chars(n as nat)),
        ),
        o.location matches Some(l) ==> transcode_pairs(o, item_key, token).contains(
            ("location"@, location_wire(l)),
        ),
        o.media_buffer_size matches Some(n) ==> transcode_pairs(o, item_key, token).contains(
            ("mediaBufferSize"@, dec_chars(n as nat)),
        ),
        o.force_transcode ==> transcode_pairs(o, item_key, token).contains(("directPlay"@, "0"@)),
        o.force_re_encode ==> transcode_pairs(o, item_key, token).contains(("directStream"@, "0"@)),
        o.session_id matches Some(sid) ==> transcode_pairs(o, item_key, token).contains(
            ("X-Plex-Session-Identifier"@, sid@),
        ),
        transcode_pairs(o, item_key, token)[0] == ("path"@, item_key),
        transcode_pairs(o, item_key, token).last() == ("X-Plex-Token"@, token),
{
    let h = head_pairs(o, item_key);
    let f = flag_pairs(o);
    let c = cap_pairs(o);
    let t = tail_pairs(o, token);
    let all = transcode_pairs(o, item_key, token);
    assert(all == h + (f + c) + t);
    lemma_caps_listed(o);
    assert forall|x: (Seq<char>, Seq<char>)| #[trigger] c.contains(x) implies all.contains(x) by {
        lemma_contains_right(f, c, x);
        lemma_contains_right(h, f + c, x);
        lemma_contains_left(h + (f + c), t, x);
    }
    assert forall|x: (Seq<char>, Seq<char>)| #[trigger] f.contains(x) implies all.contains(x) by {
        lemma_contains_left(f, c, x);
        lemma_contains_right(h, f + c, x);
        lemma_contains_left(h + (f + c), t, x);
    }
    let f1: Seq<(Seq<char>, Seq<char>)> = if o.force_transcode { seq![("directPlay"@, "0"@)] } else { seq![] };
    let f2: Seq<(Seq<char>, Seq<char>)> = if o.force_re_encode { seq![("directStream"@, "0"@)] } else { seq![] };
    assert(f == f1 + f2);
    if o.force_transcode {
        assert(f1[0] == ("directPlay"@, "0"@));
        lemma_contains_left(f1, f2, ("directPlay"@, "0"@));
        assert(f.contains(("directPlay"@, "0"@)));
    }
    if o.force_re_encode {
        assert(f2[0] == ("directStream"@, "0"@));
        lemma_contains_right(f1, f2, ("directStream"@, "0"@));
        assert(f.contains(("directStream"@, "0"@)));
    }
    if let Some(sid) = o.session_id {
        let x = ("X-Plex-Session-Identifier"@, sid@);
        assert(t[1] == x);
        assert(all[(h.len() + (f + c).len() + 1) as int] == x);
    }
    assert(all[0] == h[0]);
}

} // verus!
