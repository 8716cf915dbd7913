//! The elementary streams of a media part, dispatched on Plex's
//! `streamType` discriminator (1 video, 2 audio, 3 subtitle, 4 lyric).
//!
//! A video stream's frame rate is a floating-point attribute; this
//! module carries every other field of it, and the frame rate is
//! attached where the stream is decoded.

use vstd::prelude::*;

use crate::headers::opt_view;
use crate::server::{PlexBool, opt_bool, opt_to_bool};

verus! {

/// The fields every stream carries.
#[derive(Debug, Clone, PartialEq, Eq)]
#[non_exhaustive]
pub struct StreamCommon {
    /// Server-side stream id.
    pub id: u64,
    /// Plex's `streamType` discriminator.
    pub stream_type: u32,
}

/// The fields of a video stream other than its frame rate.
#[derive(Debug, Clone, PartialEq, Eq)]
#[non_exhaustive]
pub struct VideoFields {
    /// Id and discriminator.
    pub common: StreamCommon,
    /// Codec name.
    pub codec: Option<String>,
    /// Language.
    pub language: Option<String>,
    /// Width in pixels.
    pub width: Option<u32>,
    /// Height in pixels.
    pub height: Option<u32>,
    /// Bitrate in kbps.
    pub bitrate: Option<u32>,
    /// Bits per sample.
    pub bit_depth: Option<u8>,
    /// Default stream of its type.
    pub default: bool,
    /// Human-readable title.
    pub display_title: Option<String>,
}

/// An audio stream.
#[derive(Debug, Clone, PartialEq, Eq)]
#[non_exhaustive]
pub struct AudioStream {
    /// Id and discriminator.
    pub common: StreamCommon,
    /// Codec name.
    pub codec: Option<String>,
    /// Language.
    pub language: Option<String>,
    /// Channel count.
    pub channels: Option<u8>,
    /// Channel layout (`5.1(side)`, …).
    pub audio_channel_layout: Option<String>,
    /// Bitrate in kbps.
    pub bitrate: Option<u32>,
    /// Sampling rate in Hz.
    pub sampling_rate: Option<u32>,
    /// Default stream of its type.
    pub default: bool,
    /// Currently selected.
    pub selected: bool,
    /// Human-readable title.
    pub display_title: Option<String>,
}

/// A subtitle stream.
#[derive(Debug, Clone, PartialEq, Eq)]
#[non_exhaustive]
pub struct SubtitleStream {
    /// Id and discriminator.
    pub common: StreamCommon,
    /// Codec name.
    pub codec: Option<String>,
    /// Language.
    pub language: Option<String>,
    /// ISO language code.
    pub language_code: Option<String>,
    /// Default stream of its type.
    pub default: bool,
    /// Currently selected.
    pub selected: bool,
    /// Forced subtitles.
    pub forced: bool,
    /// Human-readable title.
    pub display_title: Option<String>,
    /// Path of a sidecar subtitle file.
    pub key: Option<String>,
}

/// A lyric stream.
#[derive(Debug, Clone, PartialEq, Eq)]
#[non_exhaustive]
pub struct LyricStream {
    /// Id and discriminator.
    pub common: StreamCommon,
    /// Codec name.
    pub codec: Option<String>,
    /// Lyrics provider.
    pub provider: Option<String>,
    /// Path of the lyrics resource.
    pub key: Option<String>,
}

/// A stream with a discriminator this crate does not know.
#[derive(Debug, Clone, PartialEq, Eq)]
#[non_exhaustive]
pub struct UnknownStream {
    /// Id and discriminator.
    pub common: StreamCommon,
    /// Codec name.
    pub codec: Option<String>,
}

/// A `<Stream>` element as decoded from the wire (all attributes but
/// the video frame rate).
#[derive(Debug, Clone, Default)]
pub struct StreamDto {
    /// `id`.
    pub id: u64,
    /// `streamType`.
    pub stream_type: u32,
    /// `codec`.
    pub codec: Option<String>,
    /// `language`.
    pub language: Option<String>,
    /// `languageCode`.
    pub language_code: Option<String>,
    /// `width`.
    pub width: Option<u32>,
    /// `height`.
    pub height: Option<u32>,
    /// `bitrate`.
    pub bitrate: Option<u32>,
    /// `bitDepth`.
    pub bit_depth: Option<u8>,
    /// `channels`.
    pub channels: Option<u8>,
    /// `audioChannelLayout`.
    pub audio_channel_layout: Option<String>,
    /// `samplingRate`.
    pub sampling_rate: Option<u32>,
    /// `default`.
    pub default: Option<PlexBool>,
    /// `selected`.
    pub selected: Option<PlexBool>,
    /// `forced`.
    pub forced: Option<PlexBool>,
    /// `displayTitle`.
    pub display_title: Option<String>,
    /// `key`.
    pub key: Option<String>,
    /// `provider`.
    pub provider: Option<String>,
}

/// A decoded stream, by discriminator.
#[derive(Debug, Clone, PartialEq, Eq)]
#[non_exhaustive]
pub enum DecodedStream {
    /// `streamType` 1 (the frame rate is attached by the caller).
    Video(VideoFields),
    /// `streamType` 2.
    Audio(AudioStream),
    /// `streamType` 3.
    Subtitle(SubtitleStream),
    /// `streamType` 4.
    Lyric(LyricStream),
    /// Any other `streamType`.
    Unknown(UnknownStream),
}

/// `r` is the stream that `d` describes: the variant is chosen by the
/// discriminator, each field is copied from its attribute, and the
/// flags are the flexible booleans (absent meaning `false`).
pub open spec fn decodes_to(d: StreamDto, r: DecodedStream) -> bool {
    let common = StreamCommon { id: d.id, stream_type: d.stream_type };
    match r {
        DecodedStream::Video(v) => {
            &&& d.stream_type == 1
            &&& v.common == common
            &&& opt_view(v.codec) == opt_view(d.codec)
            &&& opt_view(v.language) == opt_view(d.language)
            &&& v.width == d.width && v.height == d.height && v.bitrate == d.bitrate
            &&& v.bit_depth == d.bit_depth
            &&& v.default == opt_bool(d.default)
            &&& opt_view(v.display_title) == opt_view(d.display_title)
        },
        DecodedStream::Audio(a) => {
            &&& d.stream_type == 2
            &&& a.common == common
            &&& opt_view(a.codec) == opt_view(d.codec)
            &&& opt_view(a.language) == opt_view(d.language)
            &&& a.channels == d.channels
            &&& opt_view(a.audio_channel_layout) == opt_view(d.audio_channel_layout)
            &&& a.bitrate == d.bitrate && a.sampling_rate == d.sampling_rate
            &&& a.default == opt_bool(d.default) && a.selected == opt_bool(d.selected)
            &&& opt_view(a.display_title) == opt_view(d.display_title)
        },
        DecodedStream::Subtitle(s) => {
            &&& d.stream_type == 3
            &&& s.common == common
            &&& opt_view(s.codec) == opt_view(d.codec)
            &&& opt_view(s.language) == opt_view(d.language)
            &&& opt_view(s.language_code) == opt_view(d.language_code)
            &&& s.default == opt_bool(d.default) && s.selected == opt_bool(d.selected)
            &&& s.forced == opt_bool(d.forced)
            &&& opt_view(s.display_title) == opt_view(d.display_title)
            &&& opt_view(s.key) == opt_view(d.key)
        },
        DecodedStream::Lyric(l) => {
            &&& d.stream_type == 4
            &&& l.common == common
            &&& opt_view(l.codec) == opt_view(d.codec)
            &&& opt_view(l.provider) == opt_view(d.provider)
            &&& opt_view(l.key) == opt_view(d.key)
        },
        DecodedStream::Unknown(u) => {
            &&& !(1 <= d.stream_type <= 4)
            &&& u.common == common
            &&& opt_view(u.codec) == opt_view(d.codec)
        },
    }
}

impl StreamDto {
    /// Dispatch on `streamType`: 1 video, 2 audio, 3 subtitle, 4 lyric,
    /// anything else unknown.
    pub fn into_domain(self) -> (r: DecodedStream)
        ensures
            decodes_to(self, r),
    {
        let common = StreamCommon { id: self.id, stream_type: self.stream_type };
        let default = opt_to_bool(&self.default);
        let selected = opt_to_bool(&self.selected);
        let forced = opt_to_bool(&self.forced);
        match self.stream_type {
            1 => DecodedStream::Video(
                VideoFields {
                    common,
                    codec: self.codec,
                    language: self.language,
                    width: self.width,
                    height: self.height,
                    bitrate: self.bitrate,
                    bit_depth: self.bit_depth,
                    default,
                    display_title: self.display_title,
                },
            ),
            2 => DecodedStream::Audio(
                AudioStream {
                    common,
                    codec: self.codec,
                    language: self.language,
                    channels: self.channels,
                    audio_channel_layout: self.audio_channel_layout,
                    bitrate: self.bitrate,
                    sampling_rate: self.sampling_rate,
                    default,
                    selected,
                    display_title: self.display_title,
                },
            ),
            3 => DecodedStream::Subtitle(
                SubtitleStream {
                    common,
                    codec: self.codec,
                    language: self.language,
                    language_code: self.language_code,
                    default,
                    selected,
                    forced,
                    display_title: self.display_title,
                    key: self.key,
                },
            ),
            4 => DecodedStream::Lyric(
                LyricStream {
                    common,
                    codec: self.codec,
                    provider: self.provider,
                    key: self.key,
                },
            ),
            _ => DecodedStream::Unknown(UnknownStream { common, codec: self.codec }),
        }
    }
}

} // verus!
