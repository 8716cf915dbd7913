use plex_rs::error::Error;
use plex_rs::server::admin::{ActivityDto, BandwidthOptions, ReleaseDto, bandwidth_url};
use plex_rs::server::sessions::{
    pct_query, session_parts, session_player, session_user, PlayState, PlayerDto, UserDto,
    UserIdValue,
};
use plex_rs::server::settings::{EnumValues, SettingKind};
use plex_rs::server::{FlexString, PlexBool, RootContainerDto, ServerIdentity};

#[test]
fn plex_bool_handles_numeric_str_and_native() {
    assert!(PlexBool::Numeric(1).to_bool());
    assert!(!PlexBool::Numeric(0).to_bool());
    assert!(PlexBool::Native(true).to_bool());
    assert!(!PlexBool::Native(false).to_bool());
    assert!(PlexBool::Str("1".to_owned()).to_bool());
    assert!(PlexBool::Str("true".to_owned()).to_bool());
    assert!(!PlexBool::Str("0".to_owned()).to_bool());
    assert!(!PlexBool::Str("false".to_owned()).to_bool());
}

#[test]
fn flex_string_into_string_for_both_arms() {
    assert_eq!(FlexString::Str("7".to_owned()).into_string(), "7");
    assert_eq!(FlexString::Int(7).into_string(), "7");
}

#[test]
fn flex_string_renders_negative_numbers() {
    assert_eq!(FlexString::Int(-42).into_string(), "-42");
    assert_eq!(FlexString::Int(i64::MIN).into_string(), "-9223372036854775808");
}

fn root(mid: &str) -> RootContainerDto {
    RootContainerDto {
        machine_identifier: mid.to_owned(),
        version: "1.40.0".to_owned(),
        friendly_name: Some("Living Room".to_owned()),
        platform: None,
        platform_version: None,
        my_plex: Some(PlexBool::Str("1".to_owned())),
        my_plex_username: None,
        my_plex_signin_state: None,
        my_plex_subscription: Some(PlexBool::Native(false)),
        allow_media_deletion: None,
        allow_sharing: Some(PlexBool::Numeric(1)),
        livetv: Some(FlexString::Int(7)),
        updated_at: Some(1_700_000_000),
    }
}

#[test]
fn server_identity_from_root_container() {
    let id = ServerIdentity::from_dto(root("abc-machine")).unwrap();
    assert_eq!(id.machine_identifier.as_str(), "abc-machine");
    assert_eq!(id.version, "1.40.0");
    assert!(id.my_plex);
    assert!(!id.my_plex_subscription);
    assert!(!id.allow_media_deletion);
    assert!(id.allow_sharing);
    assert_eq!(id.livetv.as_deref(), Some("7"));
    assert_eq!(id.updated_at, Some(1_700_000_000));
}

#[test]
fn server_identity_rejects_empty_machine_identifier() {
    assert!(matches!(ServerIdentity::from_dto(root("")), Err(Error::Config(_))));
}

#[test]
fn bandwidth_options_builder_chain() {
    let opts = BandwidthOptions::default()
        .with_account(42)
        .with_min_at(1000)
        .with_max_at(2000)
        .with_timespan(4);
    assert_eq!(opts.account_id, Some(42));
    assert_eq!(opts.min_at_epoch, Some(1000));
    assert_eq!(opts.max_at_epoch, Some(2000));
    assert_eq!(opts.timespan, Some(4));
}

#[test]
fn bandwidth_url_encodes_comparison_keys() {
    let opts = BandwidthOptions::default().with_account(42).with_min_at(-5).with_timespan(4);
    let u = bandwidth_url("http://pms.local:32400", &opts).unwrap();
    assert_eq!(u.path, "/statistics/bandwidth");
    assert_eq!(u.query.as_deref(), Some("accountID=42&at%3E=-5&timespan=4"));
    assert_eq!(u.as_string(), "http://pms.local:32400/statistics/bandwidth?accountID=42&at%3E=-5&timespan=4");
}

#[test]
fn bandwidth_url_without_filters_has_empty_query() {
    let u = bandwidth_url("http://pms.local:32400", &BandwidthOptions::default()).unwrap();
    assert_eq!(u.query.as_deref(), Some(""));
    assert!(matches!(bandwidth_url("not a url", &BandwidthOptions::default()), Err(Error::Url(_))));
}

#[test]
fn activity_and_release_drop_empty_optionals() {
    let a = ActivityDto {
        uuid: "u".to_owned(),
        kind: "library.update.section".to_owned(),
        title: "Scanning".to_owned(),
        subtitle: Some(String::new()),
        progress: 40,
        cancellable: true,
    }
    .into_domain();
    assert!(a.subtitle.is_none());
    assert_eq!(a.progress, 40);
    let r = ReleaseDto {
        key: Some("k".to_owned()),
        version: "1.2".to_owned(),
        added: Some(String::new()),
        fixed: None,
        download_url: Some("https://dl".to_owned()),
        state: Some(String::new()),
    }
    .into_domain();
    assert_eq!(r.download_key.as_deref(), Some("k"));
    assert!(r.added.is_none());
    assert!(r.state.is_none());
    assert_eq!(r.download_url.as_deref(), Some("https://dl"));
}

#[test]
fn setting_kind_from_wire_handles_known_and_unknown() {
    assert_eq!(SettingKind::from_wire("int"), SettingKind::Int);
    assert_eq!(SettingKind::from_wire("bool"), SettingKind::Bool);
    match SettingKind::from_wire("future") {
        SettingKind::Other(s) => assert_eq!(s, "future"),
        other => panic!("expected Other, got {other:?}"),
    }
}

#[test]
fn enum_values_with_colons_parsed_as_mapping() {
    let parsed = EnumValues::from_wire("0:Off|1:Low|2:Medium|3:High");
    match parsed {
        EnumValues::Mapping(pairs) => {
            assert_eq!(pairs.len(), 4);
            assert_eq!(pairs[0], ("0".to_owned(), "Off".to_owned()));
            assert_eq!(pairs[3], ("3".to_owned(), "High".to_owned()));
        }
        other => panic!("expected Mapping, got {other:?}"),
    }
}

#[test]
fn enum_values_without_colons_parsed_as_list() {
    let parsed = EnumValues::from_wire("low|medium|high");
    match parsed {
        EnumValues::List(opts) => assert_eq!(opts.len(), 3),
        other => panic!("expected List, got {other:?}"),
    }
}

#[test]
fn enum_values_mixed_chunk_maps_to_itself() {
    match EnumValues::from_wire("a:1|b|c:x:y") {
        EnumValues::Mapping(pairs) => {
            assert_eq!(pairs[1], ("b".to_owned(), "b".to_owned()));
            assert_eq!(pairs[2], ("c".to_owned(), "x:y".to_owned()));
        }
        other => panic!("expected Mapping, got {other:?}"),
    }
}

#[test]
fn play_state_maps_known_and_keeps_unknown() {
    assert_eq!(PlayState::from_wire("paused"), PlayState::Paused);
    assert_eq!(PlayState::from_wire("buffering"), PlayState::Buffering);
    assert_eq!(PlayState::from_wire("weird"), PlayState::Other("weird".to_owned()));
}

#[test]
fn session_user_id_from_number_or_string() {
    let u = session_user(Some(UserDto {
        id: Some(UserIdValue::Text("17".to_owned())),
        title: Some("alice".to_owned()),
        thumb: None,
    }));
    assert_eq!(u.id, 17);
    assert_eq!(u.title.as_deref(), Some("alice"));
    let n = session_user(Some(UserDto { id: Some(UserIdValue::Number(Some(3))), title: None, thumb: None }));
    assert_eq!(n.id, 3);
    let bad = session_user(Some(UserDto { id: Some(UserIdValue::Text("x".to_owned())), title: None, thumb: None }));
    assert_eq!(bad.id, 0);
    assert_eq!(session_user(None).id, 0);
}

#[test]
fn session_player_defaults_and_flags() {
    let p = session_player(None);
    assert_eq!(p.state, PlayState::Other(String::new()));
    assert!(!p.local);
    let d = PlayerDto {
        address: Some("10.0.0.2".to_owned()),
        remote_public_address: None,
        device: None,
        machine_identifier: None,
        model: None,
        product: None,
        state: Some("playing".to_owned()),
        title: None,
        platform: None,
        platform_version: None,
        version: None,
        local: Some(PlexBool::Numeric(1)),
        controllable: Some(PlexBool::Str("0".to_owned())),
    };
    let p = session_player(Some(d));
    assert_eq!(p.state, PlayState::Playing);
    assert!(p.local);
    assert!(!p.controllable);
}

#[test]
fn session_without_key_is_rejected() {
    assert!(matches!(session_parts(None, None, None), Err(Error::Config(_))));
    let (k, _, _) = session_parts(Some("12".to_owned()), None, None).unwrap();
    assert_eq!(k, "12");
}

#[test]
fn termination_reason_is_percent_encoded() {
    assert_eq!(pct_query("Too many streams!"), "Too%20many%20streams%21");
}

#[test]
fn session_parts_reads_user_and_player() {
    let (_, u, p) = session_parts(Some("7".to_owned()), None, None).unwrap();
    assert_eq!(u.id, 0);
    assert!(u.title.is_none());
    assert_eq!(p.state, PlayState::Other(String::new()));
    assert!(!p.local && !p.controllable);
    let user = UserDto { id: Some(UserIdValue::Text("42".to_owned())), title: Some("ann".to_owned()), thumb: None };
    let player = PlayerDto {
        address: None,
        remote_public_address: None,
        device: None,
        machine_identifier: None,
        model: None,
        product: None,
        state: Some("paused".to_owned()),
        title: Some("TV".to_owned()),
        platform: None,
        platform_version: None,
        version: None,
        local: Some(PlexBool::Numeric(1)),
        controllable: None,
    };
    let (k, u, p) = session_parts(Some("7".to_owned()), Some(user), Some(player)).unwrap();
    assert_eq!(k, "7");
    assert_eq!(u.id, 42);
    assert_eq!(u.title.as_deref(), Some("ann"));
    assert_eq!(p.state, PlayState::Paused);
    assert_eq!(p.title.as_deref(), Some("TV"));
    assert!(p.local && !p.controllable);
}
