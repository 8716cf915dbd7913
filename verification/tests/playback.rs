use std::sync::atomic::{AtomicU64, Ordering};

use plex_rs::error::Error;
use plex_rs::ids::{MachineIdentifier, PlexToken};
use plex_rs::media::playlist::PlaylistKind;
use plex_rs::playback::client::{command_url, play_media_params, MediaType, QueueItemRef, RepeatMode};
use plex_rs::playback::play_queue::{
    library_directory_uri, pct_encode_path, playlist_type, server_uri, PlayQueueRequest,
};
use plex_rs::playback::client::volume_param;
use plex_rs::playback::play_queue::{add_item_url, clear_url, move_item_url, queue_url, remove_item_url};
use plex_rs::playback::transcode::{
    is_valid_resolution, LocationHint, StreamKind, TranscodeOptions, TranscodeProtocol,
};

#[test]
fn media_type_wire_spellings() {
    assert_eq!(MediaType::Video.as_wire(), "video");
    assert_eq!(MediaType::Music.as_wire(), "music");
    assert_eq!(MediaType::Photo.as_wire(), "photo");
}

#[test]
fn repeat_mode_wire_spellings() {
    assert_eq!(RepeatMode::Off.as_wire(), "0");
    assert_eq!(RepeatMode::One.as_wire(), "1");
    assert_eq!(RepeatMode::All.as_wire(), "2");
}

#[test]
fn command_id_increments_per_send_call() {
    let counter = AtomicU64::new(1);
    let first = counter.fetch_add(1, Ordering::SeqCst);
    let second = counter.fetch_add(1, Ordering::SeqCst);
    assert_eq!(first, 1);
    assert_eq!(second, 2);
}

#[test]
fn command_url_appends_params_then_command_id() {
    let u = command_url("http://player.local:32500", "playback/seekTo", &[("offset", "1000"), ("type", "video")], 7)
        .unwrap();
    assert_eq!(u.path, "/player/playback/seekTo");
    assert_eq!(u.query.as_deref(), Some("offset=1000&type=video&commandID=7"));
}

fn item(list_type: &str) -> QueueItemRef {
    QueueItemRef { key: "/library/metadata/42".to_owned(), list_type: list_type.to_owned(), rating_key: 42 }
}

#[test]
fn play_media_params_in_order() {
    let mid = MachineIdentifier::new("m1").unwrap();
    let tok = PlexToken::new("tk").unwrap();
    let first = item("audio");
    let v = play_media_params("http://pms.local", &mid, Some(&tok), 9, Some(&first), 1500).unwrap();
    let got: Vec<(&str, &str)> = v.iter().map(|(k, x)| (k.as_str(), x.as_str())).collect();
    assert_eq!(
        got,
        vec![
            ("providerIdentifier", "com.plexapp.plugins.library"),
            ("machineIdentifier", "m1"),
            ("protocol", "http"),
            ("address", "pms.local"),
            ("port", "80"),
            ("offset", "1500"),
            ("key", "/library/metadata/42"),
            ("type", "music"),
            ("containerKey", "/playQueues/9?window=100&own=1"),
            ("token", "tk"),
        ]
    );
}

#[test]
fn play_media_errors() {
    let mid = MachineIdentifier::new("m1").unwrap();
    let tok = PlexToken::new("tk").unwrap();
    let first = item("video");
    assert!(matches!(play_media_params("http://pms.local", &mid, Some(&tok), 1, None, 0), Err(Error::Config(_))));
    assert!(matches!(play_media_params("http://pms.local", &mid, None, 1, Some(&first), 0), Err(Error::Config(_))));
    let v = play_media_params("https://pms.local:32400", &mid, Some(&tok), 1, Some(&first), 0).unwrap();
    assert_eq!(v[4].1, "32400");
    assert_eq!(v[7].1, "video");
}

#[test]
fn pct_encode_path_escapes_slash_and_comma() {
    let s = pct_encode_path("/library/metadata/1,2,3");
    assert_eq!(s, "%2Flibrary%2Fmetadata%2F1%2C2%2C3");
}

#[test]
fn pct_encode_path_preserves_unreserved() {
    assert_eq!(pct_encode_path("abc-DEF_123.~"), "abc-DEF_123.~");
}

#[test]
fn server_uri_format_matches_python_template() {
    let mid = MachineIdentifier::new("abc-machine-id").unwrap();
    let uri = server_uri(&mid, "/library/metadata/42");
    assert_eq!(uri, "server://abc-machine-id/com.plexapp.plugins.library/library/metadata/42");
}

#[test]
fn library_directory_uri_joins_rating_keys_with_commas() {
    let uri = library_directory_uri(&[1, 22, 333]);
    assert_eq!(uri, "library:///directory/%2Flibrary%2Fmetadata%2F1%2C22%2C333");
}

#[test]
fn playlist_type_defaults_to_video() {
    assert_eq!(playlist_type(&PlaylistKind::Audio), "audio");
    assert_eq!(playlist_type(&PlaylistKind::Photo), "photo");
    assert_eq!(playlist_type(&PlaylistKind::Video), "video");
    assert_eq!(playlist_type(&PlaylistKind::Other("x".to_owned())), "video");
}

#[test]
fn create_queue_url_for_one_item() {
    let mid = MachineIdentifier::new("mid").unwrap();
    let req = PlayQueueRequest::new().from_item(item("video")).shuffle(true).start_at("/k");
    let u = req.create_url("http://pms.local:32400", &mid).unwrap();
    assert_eq!(u.path, "/playQueues");
    assert_eq!(
        u.query.as_deref(),
        Some("includeChapters=1&includeRelated=1&repeat=0&shuffle=1&continuous=0&type=video&uri=server%3A%2F%2Fmid%2Fcom.plexapp.plugins.library%2Flibrary%2Fmetadata%2F42&key=%2Fk")
    );
}

#[test]
fn create_queue_errors_and_playlist_source() {
    let mid = MachineIdentifier::new("mid").unwrap();
    assert!(matches!(PlayQueueRequest::new().create_url("http://pms.local", &mid), Err(Error::Config(_))));
    let empty = PlayQueueRequest::new().from_items(Vec::new());
    assert!(matches!(empty.create_url("http://pms.local", &mid), Err(Error::Config(_))));
    let p = PlayQueueRequest::new().from_playlist(PlaylistKind::Audio, 500);
    let u = p.create_url("http://pms.local", &mid).unwrap();
    assert!(u.query.unwrap().ends_with("type=audio&playlistID=500"));
}

#[test]
fn default_protocol_is_hls_with_m3u8_extension() {
    assert_eq!(TranscodeProtocol::Hls.container_ext(), "m3u8");
    assert_eq!(TranscodeProtocol::Hls.as_wire(), "hls");
}

#[test]
fn dash_protocol_uses_mpd_extension() {
    assert_eq!(TranscodeProtocol::Dash.container_ext(), "mpd");
    assert_eq!(TranscodeProtocol::Dash.as_wire(), "dash");
}

#[test]
fn max_video_bitrate_clamps_below_64() {
    let opts = TranscodeOptions::new().max_video_bitrate(30);
    assert_eq!(opts.max_video_bitrate, Some(64));
    let opts = TranscodeOptions::new().max_video_bitrate(8000);
    assert_eq!(opts.max_video_bitrate, Some(8000));
}

#[test]
fn quality_subtitle_audio_clamp_to_100_or_200() {
    let opts = TranscodeOptions::new().video_quality(255).subtitle_size(255).audio_boost(255);
    assert_eq!(opts.video_quality, Some(100));
    assert_eq!(opts.subtitle_size, Some(200));
    assert_eq!(opts.audio_boost, Some(200));
}

#[test]
fn is_valid_resolution_accepts_common_shapes() {
    assert!(is_valid_resolution("1920x1080"));
    assert!(is_valid_resolution("1280x720"));
    assert!(is_valid_resolution("3840x2160"));
    assert!(!is_valid_resolution("1080"));
    assert!(!is_valid_resolution("1080p"));
    assert!(!is_valid_resolution("1280x"));
    assert!(!is_valid_resolution("x720"));
    assert!(!is_valid_resolution("1920x1080x"));
}

fn token(s: &str) -> PlexToken {
    PlexToken::new(s).unwrap()
}

#[test]
fn build_for_emits_universal_path_and_token() {
    let t = token("secret");
    let url = TranscodeOptions::new().build_for("http://pms.local:32400", Some(&t), "/library/metadata/42").unwrap();
    assert_eq!(url.path, "/video/:/transcode/universal/start.m3u8");
    let q = url.query.unwrap();
    assert!(q.contains("path=%2Flibrary%2Fmetadata%2F42"), "{q}");
    assert!(q.contains("X-Plex-Token=secret"), "{q}");
    assert!(q.contains("protocol=hls"));
    assert!(q.contains("fastSeek=1"));
    assert!(q.contains("copyts=1"));
    assert!(q.contains("offset=0"));
    assert!(!q.contains("directPlay=0"));
    assert!(!q.contains("directStream=0"));
}

#[test]
fn dash_swaps_path_extension_and_protocol() {
    let t = token("t");
    let url = TranscodeOptions::new()
        .protocol(TranscodeProtocol::Dash)
        .build_for("http://pms.local:32400", Some(&t), "/library/metadata/1")
        .unwrap();
    assert_eq!(url.path, "/video/:/transcode/universal/start.mpd");
    assert!(url.query.unwrap().contains("protocol=dash"));
}

#[test]
fn audio_stream_kind_changes_path_segment() {
    let t = token("t");
    let url = TranscodeOptions::new()
        .stream_kind(StreamKind::Audio)
        .build_for("http://pms.local:32400", Some(&t), "/library/metadata/1")
        .unwrap();
    assert!(url.path.starts_with("/audio/:/transcode/universal/"));
}

#[test]
fn force_transcode_and_re_encode_emit_zero_pairs() {
    let t = token("t");
    let url = TranscodeOptions::new()
        .force_transcode(true)
        .force_re_encode(true)
        .build_for("http://pms.local:32400", Some(&t), "/library/metadata/1")
        .unwrap();
    let q = url.query.unwrap();
    assert!(q.contains("directPlay=0"), "{q}");
    assert!(q.contains("directStream=0"), "{q}");
}

#[test]
fn video_resolution_invalid_format_rejected() {
    let t = token("t");
    let err = TranscodeOptions::new()
        .video_resolution("1080p")
        .build_for("http://pms.local:32400", Some(&t), "/library/metadata/1");
    assert!(matches!(err, Err(Error::Config(ref m)) if m.contains("WxH")));
}

#[test]
fn video_resolution_valid_format_accepted() {
    let t = token("t");
    let url = TranscodeOptions::new()
        .video_resolution("1920x1080")
        .build_for("http://pms.local:32400", Some(&t), "/library/metadata/1")
        .unwrap();
    assert!(url.query.unwrap().contains("videoResolution=1920x1080"));
}

#[test]
fn location_hint_appears_as_lan_or_wan() {
    let t = token("t");
    let url = TranscodeOptions::new()
        .location(LocationHint::Lan)
        .build_for("http://pms.local:32400", Some(&t), "/library/metadata/1")
        .unwrap();
    assert!(url.query.unwrap().contains("location=lan"));
}

#[test]
fn build_for_returns_config_error_when_token_missing() {
    let err = TranscodeOptions::new().build_for("http://pms.local:32400", None, "/library/metadata/1");
    assert!(matches!(err, Err(Error::Config(ref m)) if m.contains("token")));
}

#[test]
fn platform_override_appears_in_query() {
    let t = token("t");
    let url = TranscodeOptions::new()
        .platform("iOS")
        .build_for("http://pms.local:32400", Some(&t), "/library/metadata/1")
        .unwrap();
    assert!(url.query.unwrap().contains("X-Plex-Platform=iOS"));
}

#[test]
fn session_id_appears_only_when_set() {
    let t = token("t");
    let with = TranscodeOptions::new()
        .session_id("abc-123")
        .build_for("http://pms.local:32400", Some(&t), "/library/metadata/1")
        .unwrap();
    assert!(with.query.unwrap().contains("X-Plex-Session-Identifier=abc-123"));
    let without = TranscodeOptions::new()
        .build_for("http://pms.local:32400", Some(&t), "/library/metadata/1")
        .unwrap();
    assert!(!without.query.unwrap().contains("Session-Identifier"));
}

#[test]
fn default_transcode_query_is_exact() {
    let t = token("tk");
    let url = TranscodeOptions::new().build_for("http://pms.local:32400", Some(&t), "/k").unwrap();
    assert_eq!(
        url.as_string(),
        "http://pms.local:32400/video/:/transcode/universal/start.m3u8?path=%2Fk&protocol=hls&mediaIndex=0&partIndex=0&offset=0&fastSeek=1&copyts=1&X-Plex-Platform=Chrome&X-Plex-Token=tk"
    );
}

#[test]
fn volume_is_capped_at_one_hundred() {
    assert_eq!(volume_param(0), "0");
    assert_eq!(volume_param(55), "55");
    assert_eq!(volume_param(100), "100");
    assert_eq!(volume_param(250), "100");
}

#[test]
fn play_queue_operation_urls() {
    let base = "http://pms.local:32400/";
    assert_eq!(queue_url(base, 12).ok().unwrap().as_string(), "http://pms.local:32400/playQueues/12");
    let add = add_item_url(base, 12, "/library/metadata/42", true).ok().unwrap();
    assert_eq!(
        add.query.as_deref(),
        Some("uri=server%3A%2F%2F.%2Fcom.plexapp.plugins.library%2Flibrary%2Fmetadata%2F42&next=1")
    );
    let mv = move_item_url(base, 12, 100, Some(101)).ok().unwrap();
    assert_eq!(mv.as_string(), "http://pms.local:32400/playQueues/12/items/100/move?after=101");
    let mv_front = move_item_url(base, 12, 100, None).ok().unwrap();
    assert_eq!(mv_front.as_string(), "http://pms.local:32400/playQueues/12/items/100/move");
    assert_eq!(remove_item_url(base, 12, 100).ok().unwrap().path, "/playQueues/12/items/100");
    assert_eq!(clear_url(base, 12).ok().unwrap().path, "/playQueues/12/items");
}
