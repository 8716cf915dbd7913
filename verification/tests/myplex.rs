use plex_rs::error::Error;
use plex_rs::ids::ClientIdentifier;
use plex_rs::myplex::discover::{search_url, DiscoverKind, DiscoverOptions};
use plex_rs::myplex::devices::DeviceDto;
use plex_rs::myplex::friends::{FriendDto, HomeUserDto};
use plex_rs::myplex::webhooks::{encode_form, parse_webhook_list};
use plex_rs::myplex::{find_resource, normalize_base, resources_url, PLEX_TV_BASE};
use plex_rs::myplex::metadata_provider::{
    encode_rating_key, first_user_state, parse_timestamp, scrobble_url, user_state_url,
    TimestampValue, UserState, UserStateDto,
};
use plex_rs::myplex::resources::{
    ConnectOptions, MyPlexResource, MyPlexResourceDto, ResourceConnectionDto,
    DEFAULT_PER_ATTEMPT_TIMEOUT,
};
use plex_rs::myplex::webhooks::{with_webhook, without_webhook};
use plex_rs::myplex::watchlist::{
    build_watchlist_url, cap_results, rating_key_from_guid, urlencode_segment,
    watchlist_action_url, WatchlistFilter, WatchlistKind, WatchlistOptions,
};

#[test]
fn discover_kind_wire_spellings() {
    assert_eq!(DiscoverKind::Movie.as_wire(), "movies");
    assert_eq!(DiscoverKind::Show.as_wire(), "tv");
}

#[test]
fn options_defaults() {
    let o = DiscoverOptions::default();
    assert_eq!(o.limit, 30);
    assert!(o.kind.is_none());
    assert_eq!(o.providers, "discover");
}

#[test]
fn discover_options_builder_chain() {
    let o = DiscoverOptions::default()
        .with_limit(50)
        .with_kind(DiscoverKind::Show)
        .with_providers("discover,PLEXAVOD");
    assert_eq!(o.limit, 50);
    assert_eq!(o.kind, Some(DiscoverKind::Show));
    assert_eq!(o.providers, "discover,PLEXAVOD");
}

#[test]
fn discover_search_url_lists_all_parameters() {
    let u = search_url("https://discover.provider.plex.tv", "blade runner", &DiscoverOptions::default()).unwrap();
    assert_eq!(u.path, "/library/search");
    assert_eq!(
        u.query.as_deref(),
        Some("query=blade+runner&limit=30&searchTypes=movies%2Ctv&searchProviders=discover&includeMetadata=1")
    );
    let k = search_url("https://d.example", "x", &DiscoverOptions::default().with_kind(DiscoverKind::Movie)).unwrap();
    assert!(k.query.unwrap().contains("searchTypes=movies&"));
}

#[test]
fn encode_rating_key_passes_hex_unchanged() {
    assert_eq!(encode_rating_key("abc123def"), "abc123def");
}

#[test]
fn encode_rating_key_escapes_special() {
    assert_eq!(encode_rating_key("a/b"), "a%2Fb");
}

#[test]
fn metadata_provider_urls() {
    assert_eq!(user_state_url("https://m.example", "a b"), "https://m.example/library/metadata/a%20b/userState");
    assert_eq!(
        scrobble_url("https://m.example", "5d77", true),
        "https://m.example/actions/scrobble?key=5d77&identifier=com.plexapp.plugins.library"
    );
    assert_eq!(
        scrobble_url("https://m.example", "5d77", false),
        "https://m.example/actions/unscrobble?key=5d77&identifier=com.plexapp.plugins.library"
    );
}

#[test]
fn rating_key_from_guid_strips_prefix() {
    assert_eq!(rating_key_from_guid("plex://movie/5d776b59ad5437001f796d8b"), "5d776b59ad5437001f796d8b");
    assert_eq!(rating_key_from_guid("plex://show/abc"), "abc");
    assert_eq!(rating_key_from_guid("nopath"), "nopath");
}

#[test]
fn rating_key_from_guid_trailing_slash_is_empty() {
    assert_eq!(rating_key_from_guid("plex://movie/"), "");
    assert_eq!(rating_key_from_guid(""), "");
}

#[test]
fn urlencode_segment_escapes_special_chars() {
    assert_eq!(urlencode_segment("abc-123_.~"), "abc-123_.~");
    assert_eq!(urlencode_segment("a b/c?d"), "a%20b%2Fc%3Fd");
}

#[test]
fn watchlist_options_builder_chain() {
    let o = WatchlistOptions::default()
        .with_filter(WatchlistFilter::Available)
        .with_kind(WatchlistKind::Movie)
        .with_sort("watchlistedAt:desc")
        .with_max_results(10);
    assert_eq!(o.filter, WatchlistFilter::Available);
    assert_eq!(o.kind, Some(WatchlistKind::Movie));
    assert_eq!(o.sort.as_deref(), Some("watchlistedAt:desc"));
    assert_eq!(o.max_results, Some(10));
}

#[test]
fn build_watchlist_url_default_filter_is_all() {
    let url = build_watchlist_url("https://d.example", &WatchlistOptions::default()).unwrap();
    assert_eq!(url.path, "/library/sections/watchlist/all");
    let q = url.query.unwrap();
    assert!(q.contains("includeCollections=1"));
    assert!(q.contains("includeExternalMedia=1"));
}

#[test]
fn build_watchlist_url_filter_released() {
    let url = build_watchlist_url(
        "https://d.example",
        &WatchlistOptions::default().with_filter(WatchlistFilter::Released),
    )
    .unwrap();
    assert_eq!(url.path, "/library/sections/watchlist/released");
}

#[test]
fn build_watchlist_url_kind_filter_is_numeric() {
    let url = build_watchlist_url("https://d.example", &WatchlistOptions::default().with_kind(WatchlistKind::Movie)).unwrap();
    assert!(url.query.unwrap().contains("type=1"));
    let url = build_watchlist_url("https://d.example", &WatchlistOptions::default().with_kind(WatchlistKind::Show)).unwrap();
    assert!(url.query.unwrap().contains("type=2"));
}

#[test]
fn build_watchlist_url_sort_appended() {
    let url = build_watchlist_url("https://d.example", &WatchlistOptions::default().with_sort("titleSort:desc")).unwrap();
    assert!(url.query.unwrap().contains("sort=titleSort%3Adesc"));
}

#[test]
fn watchlist_actions_and_cap() {
    assert_eq!(
        watchlist_action_url("https://d.example", "a/b", true),
        "https://d.example/actions/addToWatchlist?ratingKey=a%2Fb"
    );
    assert_eq!(
        watchlist_action_url("https://d.example", "k", false),
        "https://d.example/actions/removeFromWatchlist?ratingKey=k"
    );
    assert_eq!(cap_results(vec![1, 2, 3, 4], Some(2)), vec![1, 2]);
    assert_eq!(cap_results(vec![1, 2], Some(5)), vec![1, 2]);
    assert_eq!(cap_results(vec![1, 2], None), vec![1, 2]);
}

fn conn(protocol: &str, uri: &str, local: bool, relay: bool) -> ResourceConnectionDto {
    ResourceConnectionDto {
        protocol: protocol.to_owned(),
        address: "a".to_owned(),
        port: 32400,
        uri: uri.to_owned(),
        local: Some(local),
        relay: Some(relay),
        ipv6: None,
    }
}

fn sample_dto() -> MyPlexResourceDto {
    MyPlexResourceDto {
        name: "Living Room".to_owned(),
        product: "Plex Media Server".to_owned(),
        product_version: Some("1.40.2.0".to_owned()),
        platform: Some("Linux".to_owned()),
        platform_version: Some("5.15".to_owned()),
        device: Some("PC".to_owned()),
        client_identifier: "abcd1234abcd1234abcd1234abcd1234abcd1234".to_owned(),
        provides: "server".to_owned(),
        owned: Some(true),
        presence: Some(true),
        https_required: Some(false),
        public_address_matches: Some(true),
        relay: Some(false),
        dns_rebinding_protection: Some(false),
        public_address: Some("1.2.3.4".to_owned()),
        access_token: Some("resource-access-token".to_owned()),
        connections: vec![
            conn("https", "https://10-0-0-5.abc.plex.direct:32400", true, false),
            conn("https", "https://1-2-3-4.abc.plex.direct:32400", false, false),
            conn("https", "https://relay.plex.tv:443/abcd", false, true),
        ],
    }
}

#[test]
fn dto_parses_full_entry() {
    let r = MyPlexResource::from_dto(sample_dto()).ok().unwrap();
    assert_eq!(r.name, "Living Room");
    assert_eq!(r.provides, vec!["server"]);
    assert!(r.is_server());
    assert!(r.owned);
    assert_eq!(r.connections.len(), 3);
    assert!(r.connections[0].local);
    assert!(r.connections[2].relay);
    assert_eq!(r.access_token.as_ref().unwrap().expose(), "resource-access-token");
}

#[test]
fn preferred_connections_orders_local_then_remote_then_relay() {
    let r = MyPlexResource::from_dto(sample_dto()).ok().unwrap();
    let order = r.preferred_connections(None);
    assert_eq!(order.len(), 3);
    assert!(order[0].contains("10-0-0-5"));
    assert!(order[1].contains("1-2-3-4"));
    assert!(order[2].contains("relay.plex.tv"));
}

#[test]
fn preferred_connections_skips_local_for_shared_resources() {
    let mut r = MyPlexResource::from_dto(sample_dto()).ok().unwrap();
    r.owned = false;
    let order = r.preferred_connections(None);
    assert_eq!(order.len(), 2);
    assert!(order[0].contains("1-2-3-4"));
    assert!(order[1].contains("relay.plex.tv"));
}

#[test]
fn preferred_connections_filters_by_scheme() {
    let r = MyPlexResource::from_dto(sample_dto()).ok().unwrap();
    assert_eq!(r.preferred_connections(Some(true)).len(), 3);
    assert!(r.preferred_connections(Some(false)).is_empty());
}

#[test]
fn preferred_connections_orders_https_before_http() {
    let mut dto = sample_dto();
    dto.connections = vec![
        conn("http", "http://a:32400", false, false),
        conn("HTTPS", "https://a:32400", false, false),
    ];
    let r = MyPlexResource::from_dto(dto).ok().unwrap();
    let order = r.preferred_connections(None);
    assert_eq!(order, vec!["https://a:32400".to_owned(), "http://a:32400".to_owned()]);
}

#[test]
fn provides_is_csv_split() {
    let mut dto = sample_dto();
    dto.provides = "player, controller, ,pubsub-player".to_owned();
    let r = MyPlexResource::from_dto(dto).ok().unwrap();
    assert_eq!(r.provides, vec!["player", "controller", "pubsub-player"]);
    assert!(!r.is_server());
}

#[test]
fn empty_access_token_counts_as_none_and_empty_id_fails() {
    let mut dto = sample_dto();
    dto.access_token = Some(String::new());
    let r = MyPlexResource::from_dto(dto).ok().unwrap();
    assert!(r.access_token.is_none());
    assert!(matches!(r.connect_plan(None), Err(Error::NotFound { .. })));
    let mut bad = sample_dto();
    bad.client_identifier = String::new();
    assert!(matches!(MyPlexResource::from_dto(bad), Err(Error::Config(_))));
}

#[test]
fn connect_plan_needs_a_connection_then_a_token() {
    let r = MyPlexResource::from_dto(sample_dto()).ok().unwrap();
    let (urls, token) = r.connect_plan(None).ok().unwrap();
    assert_eq!(urls.len(), 3);
    assert_eq!(token.expose(), "resource-access-token");
    assert!(matches!(r.connect_plan(Some(false)), Err(Error::NotFound { .. })));
}

#[test]
fn connect_options_defaults_and_setters() {
    let o = ConnectOptions::new(ClientIdentifier::new("c").unwrap());
    assert!(o.ssl.is_none());
    assert_eq!(o.per_attempt_timeout, DEFAULT_PER_ATTEMPT_TIMEOUT);
    assert_eq!(DEFAULT_PER_ATTEMPT_TIMEOUT, 8_000_000_000);
    let o = o.with_ssl(Some(true)).with_per_attempt_timeout(5);
    assert_eq!(o.ssl, Some(true));
    assert_eq!(o.per_attempt_timeout, 5);
}

#[test]
fn friend_and_home_user_flags() {
    let f = FriendDto {
        id: 1001,
        username: "alice".to_owned(),
        title: "alice".to_owned(),
        email: Some(String::new()),
        thumb: Some("https://t".to_owned()),
        home: 1,
        restricted: 0,
        allow_sync: 1,
        allow_channels: 2,
        allow_camera_upload: 0,
        access_token: Some("tok".to_owned()),
    }
    .into_domain()
    .ok()
    .unwrap();
    assert!(f.home);
    assert!(f.allow_sync);
    assert!(!f.allow_channels);
    assert!(f.email.is_none());
    assert_eq!(f.access_token.unwrap().expose(), "tok");
    let h = HomeUserDto {
        id: 2003,
        title: "Kid".to_owned(),
        username: Some(String::new()),
        email: None,
        thumb: None,
        restricted: 1,
        protected: 0,
        admin: 0,
        guest: 0,
    }
    .into_domain();
    assert!(h.username.is_none());
    assert!(h.restricted);
    assert!(!h.admin);
}

#[test]
fn with_base_strips_trailing_slashes() {
    assert_eq!(normalize_base("https://mock.example.com//"), "https://mock.example.com");
    assert_eq!(normalize_base("///"), "");
}

#[test]
fn default_base_is_plex_tv() {
    assert_eq!(PLEX_TV_BASE, "https://plex.tv");
    assert_eq!(
        resources_url(PLEX_TV_BASE),
        "https://plex.tv/api/v2/resources?includeHttps=1&includeRelay=1"
    );
}

#[test]
fn resource_lookup_ignores_ascii_case_and_takes_the_first() {
    let mut a = sample_dto();
    a.name = "Den".to_owned();
    let b = sample_dto();
    let mut c = sample_dto();
    c.name = "LIVING ROOM".to_owned();
    c.product = "Second".to_owned();
    let all: Vec<MyPlexResource> =
        vec![a, b, c].into_iter().map(|d| MyPlexResource::from_dto(d).ok().unwrap()).collect();
    let found = find_resource(all, "living room").unwrap();
    assert_eq!(found.name, "Living Room");
    assert_eq!(found.product, "Plex Media Server");
    let none: Vec<MyPlexResource> = vec![MyPlexResource::from_dto(sample_dto()).ok().unwrap()];
    assert!(find_resource(none, "kitchen").is_none());
}

#[test]
fn ipv6_pascalcase_field_deserializes() {
    let mut dto = sample_dto();
    dto.connections = vec![ResourceConnectionDto {
        protocol: "https".to_owned(),
        address: "::1".to_owned(),
        port: 32400,
        uri: "https://[::1]:32400".to_owned(),
        local: None,
        relay: None,
        ipv6: Some(true),
    }];
    let r = MyPlexResource::from_dto(dto).ok().unwrap();
    assert!(r.connections[0].ipv6);
}

fn user_state_dto(rating_key: &str) -> UserStateDto {
    UserStateDto {
        rating_key: rating_key.to_owned(),
        kind: None,
        view_count: 0,
        viewed_leaf_count: 0,
        view_offset: 0,
        view_state: None,
        last_viewed_at: None,
        watchlisted_at: None,
    }
}

#[test]
fn parses_user_state_with_all_fields() {
    let mut d = user_state_dto("abc123");
    d.kind = Some("movie".to_owned());
    d.view_count = 3;
    d.view_state = Some("complete".to_owned());
    d.last_viewed_at = Some(TimestampValue::Number(Some(1_700_000_000)));
    d.watchlisted_at = Some(TimestampValue::Number(Some(1_690_000_000)));
    let s = first_user_state(vec![d]).ok().unwrap();
    assert_eq!(s.rating_key, "abc123");
    assert_eq!(s.kind.as_deref(), Some("movie"));
    assert_eq!(s.view_count, 3);
    assert!(s.view_state_complete);
    assert!(s.is_played());
    assert!(s.is_on_watchlist());
    assert_eq!(s.last_viewed_at, Some(1_700_000_000));
    assert_eq!(s.watchlisted_at, Some(1_690_000_000));
}

#[test]
fn parses_user_state_with_missing_optional_fields() {
    let s = first_user_state(vec![user_state_dto("xyz")]).ok().unwrap();
    assert_eq!(s.rating_key, "xyz");
    assert!(s.kind.is_none());
    assert_eq!(s.view_count, 0);
    assert!(!s.view_state_complete);
    assert!(!s.is_played());
    assert!(!s.is_on_watchlist());
    assert!(s.last_viewed_at.is_none());
    assert!(s.watchlisted_at.is_none());
}

#[test]
fn parse_user_state_rejects_empty_container() {
    let err = first_user_state(vec![]).err().unwrap();
    assert!(matches!(err, Error::Config(ref msg) if msg.contains("UserState")));
}

#[test]
fn parse_timestamp_handles_epoch_number() {
    let t = parse_timestamp(&Some(TimestampValue::Number(Some(1_700_000_000)))).unwrap();
    assert_eq!(t, 1_700_000_000);
}

#[test]
fn parse_timestamp_handles_epoch_string() {
    let t = parse_timestamp(&Some(TimestampValue::Text("1700000000".to_owned()))).unwrap();
    assert_eq!(t, 1_700_000_000);
}

#[test]
fn parse_timestamp_handles_iso8601() {
    let t = parse_timestamp(&Some(TimestampValue::Text("2023-11-14T22:13:20+00:00".to_owned())))
        .unwrap();
    assert_eq!(t, 1_700_000_000);
}

#[test]
fn parse_timestamp_rejects_other_shapes() {
    assert_eq!(parse_timestamp(&None), None);
    assert_eq!(parse_timestamp(&Some(TimestampValue::Other)), None);
    assert_eq!(parse_timestamp(&Some(TimestampValue::Number(None))), None);
    assert_eq!(parse_timestamp(&Some(TimestampValue::Text("yesterday".to_owned()))), None);
}

#[test]
fn is_played_threshold_is_one_view() {
    let s: UserState = user_state_dto("x").into_domain();
    assert!(!s.is_played());
    let mut d = user_state_dto("x");
    d.view_count = 1;
    let s2: UserState = d.into_domain();
    assert!(s2.is_played());
}

fn device(id: &str, provides: &str, token: &str) -> DeviceDto {
    DeviceDto {
        id: id.to_owned(),
        name: None,
        product: "X".to_owned(),
        product_version: None,
        platform: None,
        platform_version: None,
        device: None,
        model: None,
        vendor: None,
        provides: provides.to_owned(),
        client_identifier: "abcd1234abcd1234abcd1234abcd1234abcd0099".to_owned(),
        version: None,
        token: Some(token.to_owned()),
        public_address: None,
        screen_resolution: None,
        screen_density: None,
        created_at: None,
        last_seen_at: None,
        connections: vec![],
    }
}

#[test]
fn server_device_carries_server_capability_and_connections() {
    let mut d = device("1001", "server", "token-for-server");
    d.product = "Plex Media Server".to_owned();
    d.connections = vec![
        "https://10-0-0-5.x.plex.direct:32400".to_owned(),
        "https://1-2-3-4.x.plex.direct:32400".to_owned(),
    ];
    let server = d.into_domain().ok().unwrap();
    assert_eq!(server.product, "Plex Media Server");
    assert!(server.is_server());
    assert!(!server.is_player());
    assert_eq!(server.connections.len(), 2);
    assert!(server.connections[0].contains("10-0-0-5"));
    assert!(server.connections[1].contains("1-2-3-4"));
}

#[test]
fn player_device_carries_client_player_capabilities() {
    let mut d = device("1002", "client,player,pubsub-player", "token-for-phone");
    d.screen_resolution = Some("1170x2532".to_owned());
    d.screen_density = Some("3".to_owned());
    let phone = d.into_domain().ok().unwrap();
    assert!(phone.is_player());
    assert!(!phone.is_server());
    assert_eq!(phone.provides, vec!["client", "player", "pubsub-player"]);
    assert_eq!(phone.screen_resolution.as_deref(), Some("1170x2532"));
    assert_eq!(phone.screen_density.as_deref(), Some("3"));
}

#[test]
fn timestamps_parsed_from_epoch_seconds() {
    let mut d = device("1001", "server", "t");
    d.created_at = Some("1577836800".to_owned());
    d.last_seen_at = Some("soon".to_owned());
    let server = d.into_domain().ok().unwrap();
    assert_eq!(server.created_at, Some(1_577_836_800));
    assert_eq!(server.last_seen_at, None);
}

#[test]
fn empty_token_attribute_yields_none() {
    let d = device("1", "client", "").into_domain().ok().unwrap();
    assert!(d.token.is_none());
}

#[test]
fn provides_csv_trims_whitespace() {
    let d = device("1", "client, player , pubsub-player", "t").into_domain().ok().unwrap();
    assert_eq!(d.provides, vec!["client", "player", "pubsub-player"]);
}

#[test]
fn device_without_client_identifier_is_rejected() {
    let mut d = device("1", "client", "t");
    d.client_identifier = String::new();
    assert!(matches!(d.into_domain(), Err(Error::Config(_))));
}

fn friend(id: u64, name: &str) -> FriendDto {
    FriendDto {
        id,
        username: name.to_owned(),
        title: name.to_owned(),
        email: Some(String::new()),
        thumb: None,
        home: 0,
        restricted: 0,
        allow_sync: 0,
        allow_channels: 0,
        allow_camera_upload: 0,
        access_token: Some(String::new()),
    }
}

#[test]
fn first_user_is_a_regular_friend_with_token() {
    let mut f = friend(1001, "alice");
    f.email = Some("alice@example.com".to_owned());
    f.thumb = Some("https://plex.tv/users/alice".to_owned());
    f.allow_sync = 1;
    f.allow_channels = 1;
    f.access_token = Some("share-token-alice".to_owned());
    let alice = f.into_domain().ok().unwrap();
    assert_eq!(alice.username, "alice");
    assert_eq!(alice.email.as_deref(), Some("alice@example.com"));
    assert!(!alice.home);
    assert!(!alice.restricted);
    assert!(alice.allow_sync);
    assert!(alice.access_token.is_some());
}

#[test]
fn second_user_is_a_home_restricted_with_no_token() {
    let mut f = friend(1002, "bob");
    f.home = 1;
    f.restricted = 1;
    let bob = f.into_domain().ok().unwrap();
    assert!(bob.home);
    assert!(bob.restricted);
    assert!(bob.email.is_none());
    assert!(bob.access_token.is_none());
}

fn home_user(id: u64, title: &str, username: &str, email: &str, admin: u8, protected: u8, restricted: u8) -> HomeUserDto {
    HomeUserDto {
        id,
        title: title.to_owned(),
        username: Some(username.to_owned()),
        email: Some(email.to_owned()),
        thumb: None,
        restricted,
        protected,
        admin,
        guest: 0,
    }
}

#[test]
fn owner_account_has_admin_set() {
    let owner = home_user(2001, "Owner", "owner", "owner@example.com", 1, 0, 0).into_domain();
    assert!(owner.admin);
    assert!(!owner.protected);
    assert!(!owner.restricted);
    assert_eq!(owner.title, "Owner");
    assert_eq!(owner.email.as_deref(), Some("owner@example.com"));
}

#[test]
fn protected_non_admin_account_recognised() {
    let spouse = home_user(2002, "Spouse", "spouse", "spouse@example.com", 0, 1, 0).into_domain();
    assert!(!spouse.admin);
    assert!(spouse.protected);
    assert!(!spouse.restricted);
}

#[test]
fn managed_restricted_account_has_no_email() {
    let kid = home_user(2003, "Kid", "", "", 0, 1, 1).into_domain();
    assert!(kid.restricted);
    assert!(kid.protected);
    assert!(!kid.admin);
    assert!(kid.email.is_none());
    assert!(kid.username.is_none());
}

#[test]
fn encode_form_with_multiple_urls_uses_bracket_keys() {
    let body = encode_form(&["https://a/".to_owned(), "https://b/".to_owned()]);
    let s = String::from_utf8(body).unwrap();
    assert!(s.contains("urls%5B%5D=https%3A%2F%2Fa%2F"), "{s}");
    assert!(s.contains("urls%5B%5D=https%3A%2F%2Fb%2F"), "{s}");
}

#[test]
fn encode_form_empty_produces_clear_marker() {
    let body = encode_form(&[]);
    let s = String::from_utf8(body).unwrap();
    assert_eq!(s, "urls=");
}

#[test]
fn parse_webhook_list_handles_top_level_array() {
    let urls = parse_webhook_list(Some(vec!["https://a/".to_owned(), "https://b/".to_owned()]), None, "");
    assert_eq!(urls, vec!["https://a/", "https://b/"]);
}

#[test]
fn parse_webhook_list_handles_wrapped_envelope() {
    let urls = parse_webhook_list(None, Some(vec!["https://a/".to_owned(), "https://b/".to_owned()]), "");
    assert_eq!(urls, vec!["https://a/", "https://b/"]);
}

#[test]
fn parse_webhook_list_empty_array() {
    assert_eq!(parse_webhook_list(Some(vec![]), None, "[]"), Vec::<String>::new());
    assert_eq!(parse_webhook_list(None, Some(vec![]), "{\"webhooks\":[]}"), Vec::<String>::new());
}

#[test]
fn parse_webhook_list_unparseable_returns_empty() {
    assert_eq!(parse_webhook_list(None, None, "not json or xml"), Vec::<String>::new());
    assert_eq!(
        parse_webhook_list(None, None, "  <w url=\"https://x/\"/>"),
        vec!["https://x/"]
    );
}

#[test]
fn adding_then_deleting_a_webhook_restores_the_list() {
    let start = vec!["https://a/".to_owned(), "https://b/".to_owned()];
    let added = with_webhook(start.clone(), "https://c/").unwrap();
    assert_eq!(added, vec!["https://a/", "https://b/", "https://c/"]);
    assert!(with_webhook(added.clone(), "https://a/").is_none());
    let back = without_webhook(added, "https://c/").ok().unwrap();
    assert_eq!(back, start);
    assert!(matches!(without_webhook(back, "https://z/"), Err(Error::NotFound { .. })));
}
