use plex_rs::server::admin::{ActivityDto, BandwidthDto, ButlerTaskDto, ReleaseDto};
use plex_rs::server::history::HistoryQuery;
use plex_rs::server::{FlexString, PlexBool, RootContainerDto, ServerIdentity};
use plex_rs::error::Error;
use plex_rs::server::history::history_delete_url;

fn root(mid: &str, version: &str) -> RootContainerDto {
    RootContainerDto {
        machine_identifier: mid.to_owned(),
        version: version.to_owned(),
        friendly_name: None,
        platform: None,
        platform_version: None,
        my_plex: None,
        my_plex_username: None,
        my_plex_signin_state: None,
        my_plex_subscription: None,
        allow_media_deletion: None,
        allow_sharing: None,
        livetv: None,
        updated_at: None,
    }
}

#[test]
fn server_identity_from_minimal_dto() {
    let id = ServerIdentity::from_dto(root("abc-machine", "1.40.0")).ok().unwrap();
    assert_eq!(id.machine_identifier.as_str(), "abc-machine");
    assert_eq!(id.version, "1.40.0");
    assert!(id.friendly_name.is_none());
    assert!(!id.my_plex);
}

#[test]
fn server_identity_parses_string_booleans() {
    let mut dto = root("m", "v");
    dto.my_plex = Some(PlexBool::Str("1".to_owned()));
    dto.my_plex_subscription = Some(PlexBool::Str("1".to_owned()));
    dto.allow_media_deletion = Some(PlexBool::Str("0".to_owned()));
    dto.allow_sharing = Some(PlexBool::Numeric(1));
    let id = ServerIdentity::from_dto(dto).ok().unwrap();
    assert!(id.my_plex);
    assert!(id.my_plex_subscription);
    assert!(!id.allow_media_deletion);
    assert!(id.allow_sharing);
}

#[test]
fn server_identity_parses_livetv_as_quoted_string() {
    let mut dto = root("m", "v");
    dto.livetv = Some(FlexString::Str("7".to_owned()));
    let id = ServerIdentity::from_dto(dto).ok().unwrap();
    assert_eq!(id.livetv.as_deref(), Some("7"));
}

#[test]
fn server_identity_parses_livetv_as_bare_number() {
    let mut dto = root("m", "v");
    dto.livetv = Some(FlexString::Int(7));
    let id = ServerIdentity::from_dto(dto).ok().unwrap();
    assert_eq!(id.livetv.as_deref(), Some("7"));
}

#[test]
fn server_identity_livetv_absent_is_none() {
    let id = ServerIdentity::from_dto(root("m", "v")).ok().unwrap();
    assert!(id.livetv.is_none());
}

#[test]
fn activity_dto_round_trip() {
    let a = ActivityDto {
        uuid: "u1".to_owned(),
        kind: "library.refresh.items".to_owned(),
        title: "Refreshing".to_owned(),
        subtitle: Some("Movies".to_owned()),
        progress: 42,
        cancellable: true,
    }
    .into_domain();
    assert_eq!(a.uuid, "u1");
    assert_eq!(a.kind, "library.refresh.items");
    assert_eq!(a.progress, 42);
    assert!(a.cancellable);
    assert_eq!(a.subtitle.as_deref(), Some("Movies"));
}

#[test]
fn butler_task_dto_round_trip() {
    let t = ButlerTaskDto {
        name: "BackupDatabase".to_owned(),
        title: "Backup".to_owned(),
        description: "Backs up the PMS db".to_owned(),
        enabled: true,
        interval: 1,
        schedule_randomized: false,
    }
    .into_domain();
    assert_eq!(t.name, "BackupDatabase");
    assert_eq!(t.interval_days, 1);
    assert!(t.enabled);
}

#[test]
fn updater_status_dto_round_trip() {
    let r = ReleaseDto {
        key: Some("/updater/check/123".to_owned()),
        version: "1.41.0.0".to_owned(),
        added: Some("New transcode quality presets".to_owned()),
        fixed: Some("Memory leak in DLNA".to_owned()),
        download_url: Some("https://plex.tv/downloads/1.41.0.0".to_owned()),
        state: Some("available".to_owned()),
    }
    .into_domain();
    assert_eq!(r.version, "1.41.0.0");
    assert_eq!(r.state.as_deref(), Some("available"));
    assert_eq!(r.download_key.as_deref(), Some("/updater/check/123"));
}

#[test]
fn bandwidth_dto_round_trip() {
    let b = BandwidthDto {
        account_id: 1,
        device_id: 100,
        at: 1_700_000_000,
        bytes: 1_073_741_824,
        lan: true,
        timespan: 3,
    }
    .into_domain();
    assert_eq!(b.account_id, 1);
    assert_eq!(b.device_id, 100);
    assert_eq!(b.bytes, 1_073_741_824);
    assert!(b.lan);
    assert_eq!(b.timespan, 3);
    assert_eq!(b.at, Some(1_700_000_000));
}

#[test]
fn bandwidth_sample_at_zero_has_no_time() {
    let b = BandwidthDto { account_id: 1, device_id: 2, at: 0, bytes: 0, lan: false, timespan: 6 }
        .into_domain();
    assert_eq!(b.at, None);
    let far = BandwidthDto { account_id: 1, device_id: 2, at: i64::MAX, bytes: 0, lan: false, timespan: 6 }
        .into_domain();
    assert_eq!(far.at, None);
}

fn query() -> HistoryQuery {
    HistoryQuery::new("http://pms.local:32400")
}

#[test]
fn url_includes_default_sort() {
    let url = query().build_url().ok().unwrap();
    assert_eq!(url.path, "/status/sessions/history/all");
    assert!(url.query.unwrap().contains("sort=viewedAt%3Adesc"));
}

#[test]
fn url_threads_account_filter() {
    let url = query().account(42).build_url().ok().unwrap();
    assert!(url.query.unwrap().contains("accountID=42"));
}

#[test]
fn url_threads_section_filter() {
    let url = query().library_section(7).build_url().ok().unwrap();
    assert!(url.query.unwrap().contains("librarySectionID=7"));
}

#[test]
fn url_threads_rating_key_as_metadata_item_id() {
    let url = query().rating_key(123).build_url().ok().unwrap();
    assert!(url.query.unwrap().contains("metadataItemID=123"));
}

#[test]
fn url_threads_mindate_as_epoch_seconds() {
    let url = query().mindate_epoch_secs(1_700_000_000).build_url().ok().unwrap();
    let q = url.query.unwrap();
    assert!(q.contains("viewedAt%3E%3D=1700000000"), "got query: {q}");
}

#[test]
fn page_size_zero_clamped_to_one() {
    let q = query().page_size(0);
    assert_eq!(q.page_size, 1);
}

#[test]
fn max_results_threads_through_to_cap() {
    let q = query().max_results(7);
    assert_eq!(q.max_results, Some(7));
}

#[test]
fn multiple_filters_all_present() {
    let url = query().account(1).library_section(2).rating_key(3).build_url().ok().unwrap();
    let q = url.query.unwrap();
    assert!(q.contains("accountID=1"));
    assert!(q.contains("librarySectionID=2"));
    assert!(q.contains("metadataItemID=3"));
}

#[test]
fn history_entries_are_deleted_by_their_key() {
    let url = history_delete_url("http://pms.local:32400", Some("/status/sessions/history/100")).ok().unwrap();
    assert_eq!(url.as_string(), "http://pms.local:32400/status/sessions/history/100");
    match history_delete_url("http://pms.local:32400", None) {
        Err(Error::Config(m)) => assert_eq!(m, "history entry missing historyKey"),
        _ => panic!("expected Config"),
    }
}
