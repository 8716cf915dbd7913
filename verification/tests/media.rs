use plex_rs::media::markers::{ChapterDto, Marker, MarkerDto, MarkerKind};
use plex_rs::media::playlist::PlaylistKind;
use plex_rs::media::streams::{DecodedStream, StreamDto};
use plex_rs::media::tags::{collect, TagDto, TagFamilies, TagKind};
use plex_rs::server::PlexBool;

#[test]
fn marker_kind_round_trips() {
    for k in [MarkerKind::Intro, MarkerKind::Credits, MarkerKind::Commercial] {
        assert_eq!(MarkerKind::from_wire(k.as_wire()), k);
    }
}

#[test]
fn unknown_marker_type_preserved_as_other() {
    let m = MarkerKind::from_wire("recap");
    assert_eq!(m, MarkerKind::Other("recap".to_owned()));
    assert_eq!(m.as_wire(), "recap");
}

#[test]
fn marker_duration_saturates_when_end_before_start() {
    let m = Marker { id: 1, kind: MarkerKind::Intro, start_ms: 1000, end_ms: 500, final_credits: false };
    assert_eq!(m.duration_ms(), 0);
}

#[test]
fn marker_dto_parses_intro() {
    let dto = MarkerDto {
        id: 1,
        marker_type: Some("intro".to_owned()),
        start_time_offset: 30_000,
        end_time_offset: 90_000,
        final_credits: None,
    };
    let m = dto.into_domain();
    assert_eq!(m.id, 1);
    assert_eq!(m.kind, MarkerKind::Intro);
    assert_eq!(m.start_ms, 30_000);
    assert_eq!(m.end_ms, 90_000);
    assert_eq!(m.duration_ms(), 60_000);
    assert!(!m.final_credits);
    assert!(m.contains(60_000));
    assert!(!m.contains(15_000));
    assert!(m.contains(30_000));
    assert!(m.contains(90_000));
}

#[test]
fn marker_dto_parses_final_credits_flag() {
    let dto = MarkerDto {
        id: 2,
        marker_type: Some("credits".to_owned()),
        start_time_offset: 5_000_000,
        end_time_offset: 5_800_000,
        final_credits: Some(PlexBool::Str("1".to_owned())),
    };
    let m = dto.into_domain();
    assert!(m.final_credits);
    assert_eq!(m.kind, MarkerKind::Credits);
}

#[test]
fn marker_without_type_is_other_empty() {
    let m = MarkerDto::default().into_domain();
    assert_eq!(m.kind, MarkerKind::Other(String::new()));
}

#[test]
fn chapter_dto_parses_full() {
    let dto = ChapterDto {
        id: 1,
        tag: Some("Opening Scene".to_owned()),
        index: Some(1),
        start_time_offset: 0,
        end_time_offset: Some(600_000),
        thumb: Some("/library/metadata/100/chapter/1".to_owned()),
    };
    let c = dto.into_domain();
    assert_eq!(c.id, 1);
    assert_eq!(c.title.as_deref(), Some("Opening Scene"));
    assert_eq!(c.index, Some(1));
    assert_eq!(c.start_ms, 0);
    assert_eq!(c.end_ms, Some(600_000));
    assert!(c.thumb.is_some());
}

#[test]
fn chapter_dto_handles_missing_end() {
    let dto = ChapterDto { id: 5, start_time_offset: 0, ..ChapterDto::default() };
    let c = dto.into_domain();
    assert_eq!(c.id, 5);
    assert!(c.end_ms.is_none());
    assert!(c.title.is_none());
}

#[test]
fn playlist_kind_round_trips_known_values() {
    for k in [PlaylistKind::Audio, PlaylistKind::Video, PlaylistKind::Photo] {
        assert_eq!(PlaylistKind::from_wire(k.as_wire()), k);
    }
}

#[test]
fn playlist_kind_unknown_preserves_string() {
    let k = PlaylistKind::from_wire("podcast");
    assert_eq!(k.as_wire(), "podcast");
    assert_eq!(k.to_string(), "podcast");
}

#[test]
fn tag_kind_as_wire_is_canonical() {
    assert_eq!(TagKind::Genre.as_wire(), "Genre");
    assert_eq!(TagKind::Role.as_wire(), "Role");
    assert_eq!(TagKind::Other("Awards".to_owned()).as_wire(), "Awards");
}

#[test]
fn tag_dto_round_trips_full_role() {
    let dto = TagDto {
        id: Some(42),
        tag: Some("Amy Adams".to_owned()),
        role: Some("Louise Banks".to_owned()),
        thumb: Some("/library/people/42/thumb".to_owned()),
        filter: None,
    };
    let tag = dto.into_tag(TagKind::Role);
    assert_eq!(tag.kind, TagKind::Role);
    assert_eq!(tag.value, "Amy Adams");
    assert_eq!(tag.id, Some(42));
    assert_eq!(tag.role.as_deref(), Some("Louise Banks"));
    assert_eq!(tag.thumb.as_deref(), Some("/library/people/42/thumb"));
}

#[test]
fn tag_dto_minimal_genre() {
    let dto = TagDto { tag: Some("Sci-Fi".to_owned()), ..TagDto::default() };
    let tag = dto.into_tag(TagKind::Genre);
    assert_eq!(tag.value, "Sci-Fi");
    assert!(tag.id.is_none());
    assert!(tag.role.is_none());
    assert!(tag.thumb.is_none());
}

#[test]
fn collect_preserves_per_family_order() {
    let f = TagFamilies {
        genres: vec![TagDto { tag: Some("Action".to_owned()), ..Default::default() }],
        directors: vec![TagDto { tag: Some("Villeneuve".to_owned()), ..Default::default() }],
        ..Default::default()
    };
    let tags = collect(f);
    assert_eq!(tags.len(), 2);
    assert_eq!(tags[0].kind, TagKind::Genre);
    assert_eq!(tags[0].value, "Action");
    assert_eq!(tags[1].kind, TagKind::Director);
    assert_eq!(tags[1].value, "Villeneuve");
}

#[test]
fn collect_orders_families_then_documents() {
    let t = |s: &str| TagDto { tag: Some(s.to_owned()), ..Default::default() };
    let f = TagFamilies {
        styles: vec![t("Noir")],
        genres: vec![t("Drama"), t("Crime")],
        roles: vec![t("Actor"), TagDto::default()],
        ..Default::default()
    };
    let tags = collect(f);
    let got: Vec<(&str, &str)> = tags.iter().map(|x| (x.kind.as_wire(), x.value.as_str())).collect();
    assert_eq!(
        got,
        vec![("Genre", "Drama"), ("Genre", "Crime"), ("Role", "Actor"), ("Role", ""), ("Style", "Noir")]
    );
}

fn stream(stream_type: u32) -> StreamDto {
    StreamDto { id: 9, stream_type, codec: Some("c".to_owned()), ..StreamDto::default() }
}

#[test]
fn stream_dispatch_follows_stream_type() {
    assert!(matches!(stream(1).into_domain(), DecodedStream::Video(_)));
    assert!(matches!(stream(2).into_domain(), DecodedStream::Audio(_)));
    assert!(matches!(stream(3).into_domain(), DecodedStream::Subtitle(_)));
    assert!(matches!(stream(4).into_domain(), DecodedStream::Lyric(_)));
    match stream(99).into_domain() {
        DecodedStream::Unknown(u) => {
            assert_eq!(u.common.id, 9);
            assert_eq!(u.common.stream_type, 99);
            assert_eq!(u.codec.as_deref(), Some("c"));
        }
        other => panic!("expected Unknown, got {other:?}"),
    }
}

#[test]
fn audio_and_subtitle_flags_decode() {
    let d = StreamDto {
        id: 2,
        stream_type: 2,
        channels: Some(6),
        audio_channel_layout: Some("5.1(side)".to_owned()),
        default: Some(PlexBool::Str("1".to_owned())),
        selected: Some(PlexBool::Str("1".to_owned())),
        ..StreamDto::default()
    };
    match d.into_domain() {
        DecodedStream::Audio(a) => {
            assert_eq!(a.channels, Some(6));
            assert!(a.default);
            assert!(a.selected);
            assert_eq!(a.audio_channel_layout.as_deref(), Some("5.1(side)"));
        }
        other => panic!("expected Audio, got {other:?}"),
    }
    let s = StreamDto {
        id: 3,
        stream_type: 3,
        language_code: Some("eng".to_owned()),
        default: Some(PlexBool::Native(false)),
        forced: Some(PlexBool::Str("0".to_owned())),
        key: Some("/library/streams/3".to_owned()),
        ..StreamDto::default()
    };
    match s.into_domain() {
        DecodedStream::Subtitle(sub) => {
            assert!(!sub.default);
            assert!(!sub.forced);
            assert_eq!(sub.language_code.as_deref(), Some("eng"));
            assert_eq!(sub.key.as_deref(), Some("/library/streams/3"));
        }
        other => panic!("expected Subtitle, got {other:?}"),
    }
}
