use plex_rs::auth::{
    body_signals_otp, encode_form, pin_poll_outcome, pin_wait_step, signin_outcome, PinWait,
};
use plex_rs::error::{check_status, Error};
use plex_rs::ids::PlexToken;
use plex_rs::library::{check_section_kind, section_url, DirectoryDto, SectionKind};
use plex_rs::media::items::{item_kind, parse_rating_key, season_episode_label, ItemKind};
use plex_rs::myplex::devices::DeviceDto;
use plex_rs::myplex::metadata_provider::{parse_timestamp, TimestampValue, UserStateDto};
use plex_rs::myplex::webhooks::{
    encode_form as webhook_form, parse_xml_url_attrs, webhook_list_fallback, webhooks_url,
    with_webhook, without_webhook,
};
use plex_rs::pagination::MediaContainerMeta;
use plex_rs::server::history::{HistoryQuery, HistoryWalk};
use plex_rs::server::join_path;
use plex_rs::server::sessions::terminate_url;
use plex_rs::server::PlexBool;
use plex_rs::text::{parse_i64, parse_u64};
use plex_rs::time::parse_epoch_seconds;

#[test]
fn encode_form_basic_pair_set() {
    let s = String::from_utf8(encode_form("alice@example.com", "hunter2", None, true)).unwrap();
    assert!(s.starts_with("login=alice%40example.com"), "{s}");
    assert!(s.contains("&password=hunter2"));
    assert!(s.contains("&rememberMe=true"));
    assert!(!s.contains("verificationCode"));
}

#[test]
fn encode_form_includes_verification_code_when_supplied() {
    let s = String::from_utf8(encode_form("u", "p", Some("123456"), false)).unwrap();
    assert_eq!(s, "login=u&password=p&rememberMe=false&verificationCode=123456");
}

#[test]
fn encode_form_escapes_special_characters() {
    let s = String::from_utf8(encode_form("alice+bob@plex.tv", "p&a=ss word", None, true)).unwrap();
    assert!(s.contains("login=alice%2Bbob%40plex.tv"), "{s}");
    assert!(s.contains("password=p%26a%3Dss+word"), "{s}");
}

#[test]
fn body_signals_otp_detects_code_1029() {
    assert!(body_signals_otp(Some(&[Some(1029)]), "{}"));
}

#[test]
fn body_signals_otp_ignores_other_codes() {
    let body = r#"{"errors":[{"code":1001,"message":"Invalid email or password","status":401}]}"#;
    assert!(!body_signals_otp(Some(&[Some(1001)]), body));
}

#[test]
fn body_signals_otp_falls_back_to_substring_match() {
    let body = r#"{"error":"Please enter the Verification Code"}"#;
    assert!(body_signals_otp(None, body));
}

#[test]
fn body_signals_otp_returns_false_for_unrelated_payloads() {
    assert!(!body_signals_otp(Some(&[]), r#"{"errors":[]}"#));
    assert!(!body_signals_otp(None, "not json"));
    assert!(!body_signals_otp(None, ""));
}

#[test]
fn signin_outcomes() {
    let ok = signin_outcome(201, Some("tok".to_owned()), false, "", "/p").ok().unwrap();
    assert_eq!(ok.expose(), "tok");
    assert!(matches!(signin_outcome(200, Some(String::new()), false, "", "/p"), Err(Error::Auth(_))));
    assert!(matches!(signin_outcome(401, None, true, "", "/p"), Err(Error::TwoFactorRequired)));
    assert!(matches!(signin_outcome(401, None, false, "", "/p"), Err(Error::Unauthorized)));
    assert!(matches!(signin_outcome(404, None, false, "", "/p"), Err(Error::NotFound { ref resource }) if resource == "/p"));
    assert!(matches!(signin_outcome(500, None, true, "boom", "/p"), Err(Error::Api { status: 500, ref message }) if message == "boom"));
}

#[test]
fn pin_poll_and_wait_decisions() {
    assert!(matches!(pin_poll_outcome(None, false), Ok(None)));
    assert!(matches!(pin_poll_outcome(None, true), Err(Error::Auth(_))));
    assert!(matches!(pin_poll_outcome(Some(String::new()), true), Ok(None)));
    let t = pin_poll_outcome(Some("the-minted-token".to_owned()), true).ok().unwrap().unwrap();
    assert_eq!(t.expose(), "the-minted-token");
    assert!(matches!(pin_wait_step(None, 5, 10), PinWait::Sleep));
    assert!(matches!(pin_wait_step(None, 10, 10), PinWait::TimedOut));
    match pin_wait_step(Some(PlexToken::new("x").unwrap()), 99, 10) {
        PinWait::Done(k) => assert_eq!(k.expose(), "x"),
        _ => panic!("expected Done"),
    }
}

#[test]
fn status_check_maps_failures() {
    assert!(check_status(204, "", "/").is_ok());
    assert!(matches!(check_status(403, "denied", "/"), Err(Error::Forbidden(ref m)) if m == "denied"));
    assert!(matches!(check_status(302, "", "/"), Err(Error::Api { status: 302, .. })));
}

#[test]
fn section_helpers() {
    let u = section_url("http://plex.local:32400/", 5, "/all?type=1&year=2024").unwrap();
    assert_eq!(u.path, "/library/sections/5/all");
    assert_eq!(u.query.as_deref(), Some("type=1&year=2024"));
    assert!(check_section_kind(&SectionKind::Movie, &SectionKind::Movie, "Movies", "movie").is_ok());
    assert!(matches!(check_section_kind(&SectionKind::Show, &SectionKind::Movie, "TV", "movie"), Err(Error::Config(_))));
    let d = DirectoryDto {
        key: "1".to_owned(),
        kind: "movie".to_owned(),
        title: "Movies".to_owned(),
        uuid: Some("abc-uuid".to_owned()),
        agent: None,
        scanner: None,
        language: Some("en".to_owned()),
        created_at: Some(1_700_000_000),
        updated_at: None,
        allow_sync: Some(PlexBool::Str("1".to_owned())),
        refreshing: Some(PlexBool::Native(false)),
    };
    let s = d.into_section().unwrap();
    assert_eq!(s.id, 1);
    assert_eq!(s.kind, SectionKind::Movie);
    assert!(s.allow_sync);
    assert!(!s.refreshing);
    let bad = DirectoryDto { key: "x".to_owned(), ..s_dto() };
    assert!(matches!(bad.into_section(), Err(Error::Config(_))));
}

fn s_dto() -> DirectoryDto {
    DirectoryDto {
        key: "2".to_owned(),
        kind: "show".to_owned(),
        title: "TV".to_owned(),
        uuid: None,
        agent: None,
        scanner: None,
        language: None,
        created_at: None,
        updated_at: None,
        allow_sync: None,
        refreshing: None,
    }
}

#[test]
fn join_path_replaces_path() {
    let url = join_path("http://example.com:32400/", "/library/sections").unwrap();
    assert_eq!(url.path, "/library/sections");
}

#[test]
fn terminate_url_encodes_reason() {
    let u = terminate_url("http://pms.local:32400", "12", Some("bye now")).unwrap();
    assert_eq!(u.path, "/status/sessions/terminate");
    assert_eq!(u.query.as_deref(), Some("sessionId=12&reason=bye%20now"));
    let v = terminate_url("http://pms.local:32400", "12", None).unwrap();
    assert_eq!(v.query.as_deref(), Some("sessionId=12"));
}

#[test]
fn item_kinds_and_labels() {
    assert_eq!(item_kind(Some("clip")).unwrap(), ItemKind::Photo);
    assert_eq!(item_kind(Some("album")).unwrap().list_type(), "audio");
    assert_eq!(item_kind(Some("episode")).unwrap().list_type(), "video");
    assert!(matches!(item_kind(None), Err(Error::Config(_))));
    assert!(matches!(item_kind(Some("hologram")), Err(Error::Config(_))));
    assert_eq!(parse_rating_key("500", "ratingKey").unwrap().0, 500);
    assert!(matches!(parse_rating_key("5x", "ratingKey"), Err(Error::Config(_))));
    assert_eq!(season_episode_label(Some(1), Some(2)).as_deref(), Some("S01E02"));
    assert_eq!(season_episode_label(Some(12), Some(103)).as_deref(), Some("S12E103"));
    assert!(season_episode_label(None, Some(2)).is_none());
}

#[test]
fn number_parsers() {
    assert_eq!(parse_u64("18446744073709551615"), Some(u64::MAX));
    assert_eq!(parse_u64("18446744073709551616"), None);
    assert_eq!(parse_u64("+7"), Some(7));
    assert_eq!(parse_i64("-9223372036854775808"), Some(i64::MIN));
    assert_eq!(parse_i64("9223372036854775808"), None);
    assert_eq!(parse_i64("-+1"), None);
    assert_eq!(parse_i64("+42"), Some(42));
    assert_eq!(parse_i64(""), None);
}

#[test]
fn timestamps_parsed_from_epoch_seconds_or_rfc3339() {
    assert_eq!(parse_epoch_seconds(Some("1700000000")), Some(1_700_000_000));
    assert_eq!(parse_epoch_seconds(Some("2023-11-14T22:13:20Z")), Some(1_700_000_000));
    assert_eq!(parse_epoch_seconds(Some("garbage")), None);
    assert_eq!(parse_epoch_seconds(None), None);
    assert_eq!(parse_timestamp(&Some(TimestampValue::Number(Some(1_690_000_000)))), Some(1_690_000_000));
    assert_eq!(parse_timestamp(&Some(TimestampValue::Other)), None);
}

#[test]
fn user_state_decodes() {
    let s = UserStateDto {
        rating_key: "abc123".to_owned(),
        kind: Some("movie".to_owned()),
        view_count: 3,
        viewed_leaf_count: 0,
        view_offset: 0,
        view_state: Some("complete".to_owned()),
        last_viewed_at: Some(TimestampValue::Number(Some(1_700_000_000))),
        watchlisted_at: Some(TimestampValue::Text("1690000000".to_owned())),
    }
    .into_domain();
    assert!(s.view_state_complete);
    assert!(s.is_played());
    assert!(s.is_on_watchlist());
    assert_eq!(s.last_viewed_at, Some(1_700_000_000));
    assert_eq!(s.watchlisted_at, Some(1_690_000_000));
}

#[test]
fn device_decoding() {
    let d = DeviceDto {
        id: "1".to_owned(),
        name: Some("Living Room".to_owned()),
        product: "Plex Media Server".to_owned(),
        product_version: None,
        platform: None,
        platform_version: None,
        device: None,
        model: None,
        vendor: None,
        provides: " server , player ,".to_owned(),
        client_identifier: "cid".to_owned(),
        version: None,
        token: Some(String::new()),
        public_address: None,
        screen_resolution: None,
        screen_density: None,
        created_at: Some("1700000000".to_owned()),
        last_seen_at: None,
        connections: vec!["http://a".to_owned(), String::new(), "http://b".to_owned()],
    }
    .into_domain()
    .ok()
    .unwrap();
    assert_eq!(d.provides, vec!["server", "player"]);
    assert!(d.is_server());
    assert!(d.is_player());
    assert!(d.token.is_none());
    assert_eq!(d.created_at, Some(1_700_000_000));
    assert_eq!(d.connections, vec!["http://a", "http://b"]);
}

#[test]
fn webhook_form_and_edits() {
    let body = webhook_form(&["https://a/".to_owned(), "https://b/".to_owned()]);
    let s = String::from_utf8(body).unwrap();
    assert_eq!(s, "urls%5B%5D=https%3A%2F%2Fa%2F&urls%5B%5D=https%3A%2F%2Fb%2F");
    assert_eq!(String::from_utf8(webhook_form(&[])).unwrap(), "urls=");
    assert_eq!(webhooks_url("https://plex.tv"), "https://plex.tv/api/v2/user/webhooks");
    let urls = vec!["https://a/".to_owned()];
    assert!(with_webhook(urls.clone(), "https://a/").is_none());
    assert_eq!(with_webhook(urls.clone(), "https://b/").unwrap(), vec!["https://a/", "https://b/"]);
    assert!(matches!(without_webhook(urls.clone(), "https://z/"), Err(Error::NotFound { .. })));
    assert!(without_webhook(urls, "https://a/").unwrap().is_empty());
}

#[test]
fn parse_webhook_list_handles_xml_fallback() {
    let xml = "<webhooks><webhook url=\"https://a/\"/><webhook url=\"https://b/\"/></webhooks>";
    assert_eq!(webhook_list_fallback(xml), vec!["https://a/", "https://b/"]);
    assert_eq!(webhook_list_fallback("  <x url=\"u\"/>"), vec!["u"]);
    assert!(webhook_list_fallback("not json or xml").is_empty());
    assert_eq!(parse_xml_url_attrs("url=\"a\" url=\"unterminated"), vec!["a"]);
}

#[test]
fn history_url_and_walk() {
    let q = HistoryQuery::new("http://pms.local:32400").account(42).mindate_epoch_secs(1_700_000_000);
    let u = q.build_url().unwrap();
    assert_eq!(u.path, "/status/sessions/history/all");
    assert_eq!(u.query.as_deref(), Some("sort=viewedAt%3Adesc&accountID=42&viewedAt%3E%3D=1700000000"));
    assert_eq!(HistoryQuery::new("http://x").page_size(0).page_size, 1);

    let q = HistoryQuery::new("http://pms.local").page_size(2).max_results(3);
    let mut w = HistoryWalk::start(&q);
    let full = MediaContainerMeta { size: 2, total_size: Some(10), ..MediaContainerMeta::default() };
    assert_eq!(w.accept(2, &full), 2);
    assert_eq!(w.next.unwrap().start, 2);
    assert_eq!(w.accept(2, &full), 1);
    assert!(w.next.is_none());
    assert_eq!(w.taken, 3);

    let mut z = HistoryWalk::start(&HistoryQuery::new("http://x").max_results(0));
    let meta = MediaContainerMeta { size: 5, ..MediaContainerMeta::default() };
    assert_eq!(z.accept(5, &meta), 1);
    assert!(z.next.is_none());
}
