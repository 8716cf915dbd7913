use plex_rs::error::Error;
use plex_rs::library::{section_url, DirectoryDto, SectionKind};
use plex_rs::media::items::{item_kind, parse_rating_key, thumb_url, ItemKind};
use plex_rs::server::PlexBool;
use plex_rs::media::items::required_rating_key;
use plex_rs::media::items::{item_keys, photo_entry_kind};

const BASE: &str = "http://plex.local:32400/";

fn directory(key: &str, kind: &str, title: &str) -> DirectoryDto {
    DirectoryDto {
        key: key.to_owned(),
        kind: kind.to_owned(),
        title: title.to_owned(),
        uuid: None,
        agent: None,
        scanner: None,
        language: None,
        created_at: None,
        updated_at: None,
        allow_sync: None,
        refreshing: None,
    }
}

fn item(ty: &str) -> ItemKind {
    item_kind(Some(ty)).ok().unwrap()
}

#[test]
fn library_section_ref_url_builds_correctly() {
    let url = section_url(BASE, 5, "/all?type=1&year=2024").ok().unwrap();
    assert_eq!(url.path, "/library/sections/5/all");
    assert_eq!(url.query.as_deref(), Some("type=1&year=2024"));
}

#[test]
fn directory_dto_parses_movie_section() {
    let mut dto = directory("1", "movie", "Movies");
    dto.uuid = Some("abc-uuid".to_owned());
    dto.agent = Some("com.plexapp.agents.imdb".to_owned());
    dto.scanner = Some("Plex Movie Scanner".to_owned());
    dto.language = Some("en".to_owned());
    dto.created_at = Some(1700000000);
    dto.updated_at = Some(1700000999);
    dto.allow_sync = Some(PlexBool::Str("1".to_owned()));
    dto.refreshing = Some(PlexBool::Native(false));
    let section = dto.into_section().ok().unwrap();
    assert_eq!(section.kind, SectionKind::Movie);
    assert_eq!(section.title, "Movies");
    assert_eq!(section.uuid, "abc-uuid");
    assert_eq!(section.id, 1);
    assert_eq!(section.agent.as_deref(), Some("com.plexapp.agents.imdb"));
    assert!(section.allow_sync);
    assert!(!section.refreshing);
}

#[test]
fn directory_dto_rejects_non_numeric_key() {
    let err = directory("not-a-number", "movie", "X").into_section().err().unwrap();
    assert!(matches!(err, Error::Config(_)));
}

#[test]
fn unknown_kind_lands_in_other_variant() {
    let section = directory("9", "podcast", "Podcasts").into_section().ok().unwrap();
    assert_eq!(section.kind, SectionKind::Other("podcast".to_owned()));
    assert_eq!(section.uuid, "");
}

#[test]
fn variant_dispatch_picks_the_right_leaf() {
    assert_eq!(item("movie"), ItemKind::Movie);
    assert_eq!(item("show"), ItemKind::Show);
    assert_eq!(item("season"), ItemKind::Season);
    assert_eq!(item("episode"), ItemKind::Episode);
    assert_eq!(item("artist"), ItemKind::Artist);
    assert_eq!(item("album"), ItemKind::Album);
    assert_eq!(item("track"), ItemKind::Track);
    assert_eq!(item("photoalbum"), ItemKind::Photoalbum);
    assert_eq!(item("photo"), ItemKind::Photo);
    assert_eq!(item("clip"), ItemKind::Photo);
}

#[test]
fn list_type_groups_by_content_family() {
    assert_eq!(item("movie").list_type(), "video");
    assert_eq!(item("show").list_type(), "video");
    assert_eq!(item("season").list_type(), "video");
    assert_eq!(item("episode").list_type(), "video");
    assert_eq!(item("artist").list_type(), "audio");
    assert_eq!(item("album").list_type(), "audio");
    assert_eq!(item("track").list_type(), "audio");
    assert_eq!(item("photoalbum").list_type(), "photo");
    assert_eq!(item("photo").list_type(), "photo");
}

#[test]
fn into_library_item_rejects_missing_type() {
    assert!(matches!(item_kind(None), Err(Error::Config(_))));
}

#[test]
fn into_library_item_rejects_unknown_type() {
    assert!(matches!(item_kind(Some("hologram")), Err(Error::Config(_))));
}

#[test]
fn movie_dto_rejects_non_numeric_rating_key() {
    let err = parse_rating_key("abc", "ratingKey").err().unwrap();
    assert!(matches!(err, Error::Config(_)));
    assert_eq!(parse_rating_key("12345", "ratingKey").ok().unwrap().get(), 12345);
}

#[test]
fn thumb_url_resolves_against_base() {
    let url = thumb_url(BASE, Some("/library/metadata/1/thumb/100")).ok().unwrap().unwrap();
    assert_eq!(url.path, "/library/metadata/1/thumb/100");
    assert_eq!(url.as_string(), "http://plex.local:32400/library/metadata/1/thumb/100");
}

#[test]
fn thumb_url_returns_none_when_thumb_absent() {
    assert!(thumb_url(BASE, None).ok().unwrap().is_none());
}

#[test]
fn thumb_url_reports_unjoinable_bases() {
    assert!(matches!(thumb_url("not a url", Some("/x")), Err(Error::Url(_))));
}

#[test]
fn parent_rating_keys_are_required_and_numeric() {
    assert_eq!(required_rating_key(Some("42"), "parentRatingKey", "episode").ok().unwrap().get(), 42);
    match required_rating_key(None, "parentRatingKey", "episode") {
        Err(Error::Config(m)) => assert_eq!(m, "episode missing parentRatingKey"),
        _ => panic!("expected Config"),
    }
    assert!(matches!(
        required_rating_key(Some("x1"), "grandparentRatingKey", "track"),
        Err(Error::Config(_))
    ));
}


#[test]
fn item_keys_read_parents_as_the_kind_requires() {
    let k = item_keys(ItemKind::Episode, "10", Some("20"), Some("30")).unwrap();
    assert_eq!((k.rating_key.get(), k.parent.map(|p| p.get()), k.grandparent.map(|g| g.get())), (10, Some(20), Some(30)));
    let k = item_keys(ItemKind::Movie, "10", Some("junk"), None).unwrap();
    assert!(k.parent.is_none() && k.grandparent.is_none());
    let k = item_keys(ItemKind::Photo, "10", None, None).unwrap();
    assert!(k.parent.is_none());
    match item_keys(ItemKind::Track, "10", Some("20"), None) {
        Err(Error::Config(m)) => assert_eq!(m, "track missing grandparentRatingKey"),
        other => panic!("unexpected {other:?}"),
    }
    match item_keys(ItemKind::Season, "x", None, None) {
        Err(Error::Config(m)) => assert_eq!(m, "metadata.ratingKey not numeric: \"x\""),
        other => panic!("unexpected {other:?}"),
    }
}

#[test]
fn photo_entry_kinds() {
    assert_eq!(photo_entry_kind(None).unwrap(), ItemKind::Photo);
    assert_eq!(photo_entry_kind(Some("photoalbum")).unwrap(), ItemKind::Photoalbum);
    match photo_entry_kind(Some("movie")) {
        Err(Error::Config(m)) => assert_eq!(m, "unknown photo entry type \"movie\""),
        other => panic!("unexpected {other:?}"),
    }
}

#[test]
fn section_key_message_carries_the_parse_error() {
    match directory("a\"b", "movie", "Movies").into_section() {
        Err(Error::Config(m)) => {
            assert_eq!(m, "library section key \"a\\\"b\" not numeric: invalid digit found in string")
        }
        Ok(_) => panic!("expected an error"),
        Err(other) => panic!("unexpected {other:?}"),
    }
}
