//! # plex_rs
//!
//! A client library for the Plex Media Server HTTP API and the plex.tv
//! account services, with its request-building, decoding and policy
//! logic specified and proved.
//!
//! The modules hold what a client computes before and after it talks
//! to a server: identity headers and client configuration, the retry
//! policy, error mapping, pagination, library filters and smart-filter
//! URIs, media metadata decoding, transcoder and play-queue URLs,
//! plex.tv resources and watchlist queries, and the routing of server
//! alerts. Each public function states in its contract what it returns
//! for every input.

pub mod alerts;
pub mod auth;
pub mod client;
pub mod config;
pub mod discover_gdm;
pub mod error;
pub mod headers;
pub mod ids;
pub mod library;
pub mod media;
pub mod myplex;
pub mod order;
pub mod pagination;
pub mod playback;
pub mod server;
pub mod text;
pub mod time;
pub mod urls;

pub use crate::config::{ClientConfig, ClientConfigBuilder};
pub use crate::error::{Error, Result};
pub use crate::headers::{DEFAULT_PRODUCT, PlexIdentity};
pub use crate::ids::{ClientIdentifier, MachineIdentifier, PlayQueueId, PlexToken, RatingKey};
pub use crate::library::SectionKind;
pub use crate::library::filters::{FilterBuilder, FilterOp, SortDirection};
pub use crate::media::markers::{Chapter, Marker, MarkerKind};
pub use crate::media::playlist::PlaylistKind;
pub use crate::media::streams::{AudioStream, LyricStream, StreamCommon, SubtitleStream, UnknownStream};
pub use crate::media::tags::{Tag, TagKind};
pub use crate::pagination::PageRange;
pub use crate::server::ServerIdentity;
pub use crate::server::sessions::{PlayState, SessionPlayer, SessionUser};

use vstd::prelude::*;

verus! {

/// The crate version, sent as `X-Plex-Version`.
pub const VERSION: &'static str = "0.1.0";

} // verus!
