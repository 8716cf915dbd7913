use plex_rs::library::SectionKind;

#[test]
fn section_kind_round_trips_known_values() {
    for k in [SectionKind::Movie, SectionKind::Show, SectionKind::Music, SectionKind::Photo] {
        assert_eq!(SectionKind::from_wire(k.as_wire()), k);
    }
}

#[test]
fn section_kind_other_preserves_string() {
    let k = SectionKind::from_wire("podcast");
    assert_eq!(k.as_wire(), "podcast");
    assert_eq!(k.to_string(), "podcast");
}

#[test]
fn section_kind_music_is_spelled_artist() {
    assert_eq!(SectionKind::Music.as_wire(), "artist");
    assert_eq!(SectionKind::from_wire("artist"), SectionKind::Music);
    assert_eq!(SectionKind::from_wire("music"), SectionKind::Other("music".to_owned()));
}
