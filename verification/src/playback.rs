//! Playback: the universal transcoder, remote-control wire spellings and
//! play-queue URIs.

pub mod client;
pub mod play_queue;
pub mod transcode;
