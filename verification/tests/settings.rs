use plex_rs::error::Error;
use plex_rs::server::settings::{
    build_write_url, EnumValues, SettingDto, SettingKind, SettingValue, Settings,
};

fn dto(id: &str, kind: &str, default: &str, value: &str, group: &str) -> SettingDto {
    SettingDto {
        id: id.to_owned(),
        label: String::new(),
        summary: String::new(),
        kind: kind.to_owned(),
        default: default.to_owned(),
        value: value.to_owned(),
        hidden: false,
        advanced: false,
        secure: false,
        group: group.to_owned(),
        enum_values: None,
        default_double: default.parse::<f64>().ok().map(f64::to_bits),
        value_double: value.parse::<f64>().ok().map(f64::to_bits),
    }
}

fn parse_settings() -> Settings {
    let quality = dto("TranscoderQuality", "int", "100", "60", "transcoder");
    let name = dto("FriendlyName", "text", "", "Living Room", "general");
    let mut logging = dto("logDebug", "bool", "false", "true", "general");
    logging.advanced = true;
    let mut bw = dto("LanNetworksBandwidth", "enum", "low", "high", "transcoder");
    bw.enum_values = Some("low|medium|high".to_owned());
    Settings::from_settings(
        vec![quality, name, logging, bw].into_iter().map(SettingDto::into_domain).collect(),
    )
}

#[test]
fn parses_settings_collection_with_all_kinds() {
    let s = parse_settings();
    assert_eq!(s.len(), 4);

    let quality = s.get("TranscoderQuality").unwrap();
    assert_eq!(quality.kind, SettingKind::Int);
    assert_eq!(quality.value.as_int(), Some(60));
    assert_eq!(quality.default.as_int(), Some(100));
    assert_eq!(quality.group, "transcoder");

    let name = s.get("FriendlyName").unwrap();
    assert_eq!(name.kind, SettingKind::Text);
    assert_eq!(name.value.as_text(), Some("Living Room"));

    let logging = s.get("logDebug").unwrap();
    assert_eq!(logging.kind, SettingKind::Bool);
    assert_eq!(logging.value.as_bool(), Some(true));
    assert!(logging.advanced);

    let bw = s.get("LanNetworksBandwidth").unwrap();
    assert_eq!(bw.kind, SettingKind::Enum);
    assert_eq!(bw.value.as_text(), Some("high"));
    match &bw.enum_values {
        Some(EnumValues::List(opts)) => {
            assert_eq!(opts, &vec!["low".to_owned(), "medium".to_owned(), "high".to_owned()]);
        }
        other => panic!("expected List, got {other:?}"),
    }
}

#[test]
fn setting_value_wire_format_matches_python() {
    assert_eq!(SettingValue::Text("hi".to_owned()).to_wire().unwrap(), "hi");
    assert_eq!(SettingValue::Int(42).to_wire().unwrap(), "42");
    assert_eq!(SettingValue::Bool(true).to_wire().unwrap(), "true");
    assert_eq!(SettingValue::Bool(false).to_wire().unwrap(), "false");
    assert!(SettingValue::Double(1.5f64.to_bits()).to_wire().is_none());
}

#[test]
fn settings_are_listed_by_id_and_later_duplicates_win() {
    let a = dto("b", "int", "1", "2", "g");
    let b = dto("a", "text", "", "x", "g");
    let c = dto("b", "int", "1", "9", "h");
    let s = Settings::from_settings(vec![a, b, c].into_iter().map(SettingDto::into_domain).collect());
    let ids: Vec<&str> = s.all().iter().map(|x| x.id.as_str()).collect();
    assert_eq!(ids, vec!["a", "b"]);
    assert_eq!(s.get("b").unwrap().value.as_int(), Some(9));
    assert!(s.get("B").is_none());
    assert!(Settings::new().is_empty());
}

#[test]
fn values_parse_per_declared_kind() {
    let k = dto("k", "int", "x", "-7", "g");
    let d = dto("d", "double", "nope", "2.5", "g");
    let b = dto("b", "bool", "0", "1", "g");
    let s = Settings::from_settings(vec![k, d, b].into_iter().map(SettingDto::into_domain).collect());
    assert_eq!(s.get("k").unwrap().value.as_int(), Some(-7));
    assert_eq!(s.get("k").unwrap().default.as_text(), Some("x"));
    assert_eq!(s.get("d").unwrap().value.as_double_bits(), Some(2.5f64.to_bits()));
    assert_eq!(s.get("d").unwrap().default.as_text(), Some("nope"));
    assert_eq!(s.get("b").unwrap().value.as_bool(), Some(true));
    assert_eq!(s.get("b").unwrap().default.as_bool(), Some(false));
}

#[test]
fn settings_grouping_respects_group_field() {
    let s = parse_settings();
    let groups = s.group_names();
    assert!(groups.contains(&"general"));
    assert!(groups.contains(&"transcoder"));
    assert_eq!(groups, vec!["general", "transcoder"]);
    assert_eq!(s.group("transcoder").len(), 2);
    assert_eq!(s.group("general").len(), 2);
    assert_eq!(s.group("general")[0].id, "FriendlyName");
}

#[test]
fn validate_accepts_matching_value_type() {
    let s = parse_settings();
    assert!(s.validate("TranscoderQuality", &SettingValue::Int(80)).is_ok());
    assert!(s.validate("FriendlyName", &SettingValue::Text("X".to_owned())).is_ok());
    assert!(s.validate("logDebug", &SettingValue::Bool(false)).is_ok());
}

#[test]
fn validate_rejects_wrong_kind() {
    let s = parse_settings();
    let err = s.validate("TranscoderQuality", &SettingValue::Text("x".to_owned())).err().unwrap();
    assert!(matches!(err, Error::Config(ref msg) if msg.contains("Int")));
    match err {
        Error::Config(msg) => assert_eq!(
            msg,
            "setting TranscoderQuality: declared Int but supplied value is Text(\"x\")"
        ),
        _ => unreachable!(),
    }
}

#[test]
fn validate_rejects_unknown_id() {
    let s = parse_settings();
    let err = s.validate("NoSuchSetting", &SettingValue::Int(1)).err().unwrap();
    assert!(matches!(err, Error::NotFound { resource } if resource.contains("NoSuchSetting")));
}

#[test]
fn validate_rejects_value_outside_enum_list() {
    let s = parse_settings();
    let err = s
        .validate("LanNetworksBandwidth", &SettingValue::Text("ludicrous".to_owned()))
        .err()
        .unwrap();
    assert!(matches!(err, Error::Config(ref msg) if msg.contains("ludicrous")), "got {err:?}");
    match err {
        Error::Config(msg) => assert_eq!(
            msg,
            "setting LanNetworksBandwidth: \"ludicrous\" not in enum [\"low\", \"medium\", \"high\"]"
        ),
        _ => unreachable!(),
    }
}

#[test]
fn validate_accepts_valid_enum_choice() {
    let s = parse_settings();
    assert!(s.validate("LanNetworksBandwidth", &SettingValue::Text("medium".to_owned())).is_ok());
}

#[test]
fn validate_checks_mapping_keys() {
    let mut m = dto("Mode", "enum", "0", "1", "g");
    m.enum_values = Some("0:Off|1:On".to_owned());
    let s = Settings::from_settings(vec![m.into_domain()]);
    assert!(s.validate("Mode", &SettingValue::Text("1".to_owned())).is_ok());
    let err = s.validate("Mode", &SettingValue::Text("On".to_owned())).err().unwrap();
    match err {
        Error::Config(msg) => assert_eq!(msg, "setting Mode: \"On\" not in enum [\"0\", \"1\"]"),
        other => panic!("expected Config, got {other:?}"),
    }
}

#[test]
fn check_updates_needs_one_and_reports_the_first_failure() {
    let s = parse_settings();
    assert!(matches!(s.check_updates(&vec![]), Err(Error::Config(ref m)) if m == "set_many requires at least one update"));
    let ok = vec![
        ("TranscoderQuality".to_owned(), SettingValue::Int(60)),
        ("FriendlyName".to_owned(), SettingValue::Text("Den".to_owned())),
    ];
    assert!(s.check_updates(&ok).is_ok());
    let bad = vec![
        ("TranscoderQuality".to_owned(), SettingValue::Int(60)),
        ("Nope".to_owned(), SettingValue::Int(1)),
        ("logDebug".to_owned(), SettingValue::Int(1)),
    ];
    assert!(matches!(s.check_updates(&bad), Err(Error::NotFound { .. })));
}

#[test]
fn build_write_url_encodes_multiple_pairs() {
    let url = build_write_url(
        "http://pms.local:32400",
        &vec![
            ("TranscoderQuality".to_owned(), SettingValue::Int(60).to_wire().unwrap()),
            ("FriendlyName".to_owned(), SettingValue::Text("Living Room".to_owned()).to_wire().unwrap()),
        ],
    )
    .ok()
    .unwrap();
    let q = url.query.unwrap();
    assert!(q.contains("TranscoderQuality=60"), "{q}");
    assert!(q.contains("FriendlyName=Living+Room"), "{q}");
    assert_eq!(url.path, "/:/prefs");
}
