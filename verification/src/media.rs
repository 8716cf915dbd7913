//! Media metadata shared across item types: markers and chapters,
//! tags, playlists and the streams of a media part.

pub mod items;
pub mod markers;
pub mod playlist;
pub mod streams;
pub mod tags;
