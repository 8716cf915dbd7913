use plex_rs::discover_gdm::{merge_replies, parse_reply, SourceAddr, M_SEARCH, SERVER_PORT};

fn fake_source() -> SourceAddr {
    SourceAddr { ip: "192.168.1.50".to_owned(), ipv6: false, port: 54321 }
}

#[test]
fn parse_reply_extracts_canonical_headers() {
    let body = b"HTTP/1.0 200 OK\r\n\
Content-Type: plex/media-server\r\n\
Resource-Identifier: abcdef0123456789\r\n\
Name: Living Room\r\n\
Port: 32400\r\n\
Version: 1.40.0.1234-deadbeef\r\n\
Updated-At: 1700000000\r\n\
\r\n";
    let entry = parse_reply(body, fake_source()).unwrap();
    assert_eq!(entry.machine_identifier.as_deref(), Some("abcdef0123456789"));
    assert_eq!(entry.name.as_deref(), Some("Living Room"));
    assert_eq!(entry.port, Some(32400));
    assert_eq!(entry.version.as_deref(), Some("1.40.0.1234-deadbeef"));
    assert_eq!(entry.content_type.as_deref(), Some("plex/media-server"));
    assert_eq!(entry.updated_at, Some(1_700_000_000));
}

#[test]
fn parse_reply_returns_none_for_non_http() {
    assert!(parse_reply(b"not an http reply", fake_source()).is_none());
    assert!(parse_reply(&[0u8, 0x80, 0xff], fake_source()).is_none());
}

#[test]
fn parse_reply_tolerates_unknown_headers() {
    let body = b"HTTP/1.0 200 OK\r\nX-Future: hello\r\n\r\n";
    let entry = parse_reply(body, fake_source()).unwrap();
    assert_eq!(entry.header("x-future").as_deref(), Some("hello"));
    assert!(entry.machine_identifier.is_none());
}

#[test]
fn base_url_constructs_from_port() {
    let body = b"HTTP/1.0 200 OK\r\nPort: 32400\r\n\r\n";
    let entry = parse_reply(body, fake_source()).unwrap();
    let url = entry.base_url().unwrap();
    assert_eq!(url.as_string(), "http://192.168.1.50:32400/");
    assert_eq!(url.path, "/");
}

#[test]
fn base_url_brackets_ipv6_sources() {
    let body = b"HTTP/1.0 200 OK\r\nPort: 32400\r\n\r\n";
    let src = SourceAddr { ip: "fe80::1".to_owned(), ipv6: true, port: 1 };
    let entry = parse_reply(body, src).unwrap();
    assert_eq!(entry.base_url().unwrap().as_string(), "http://[fe80::1]:32400/");
}

#[test]
fn base_url_returns_none_when_port_missing() {
    let body = b"HTTP/1.0 200 OK\r\nName: anon\r\n\r\n";
    let entry = parse_reply(body, fake_source()).unwrap();
    assert!(entry.base_url().is_none());
}

#[test]
fn parse_reply_keeps_the_last_of_repeated_headers_and_skips_junk() {
    let body = b"HTTP/1.0 200 OK\nname: first\nno colon here\n\n  NAME :  second  \nPort: 99999\nUpdated-At: -5";
    let entry = parse_reply(body, fake_source()).unwrap();
    assert_eq!(entry.name.as_deref(), Some("second"));
    assert_eq!(entry.port, None);
    assert_eq!(entry.updated_at, Some(-5));
    assert_eq!(entry.headers.len(), 4);
    assert_eq!(entry.headers[1].0, "name");
    assert_eq!(entry.headers[1].1, "second");
}

#[test]
fn parse_reply_rejects_empty_input() {
    assert!(parse_reply(b"", fake_source()).is_none());
    assert!(parse_reply(b"\r\nHTTP/1.0 200 OK\r\n", fake_source()).is_none());
}

#[test]
fn merge_replies_keeps_one_entry_per_machine() {
    let a1 = parse_reply(b"HTTP/1.0 200 OK\r\nResource-Identifier: a\r\nName: one\r\n", fake_source()).unwrap();
    let anon = parse_reply(b"HTTP/1.0 200 OK\r\nName: anon\r\n", fake_source()).unwrap();
    let b = parse_reply(b"HTTP/1.0 200 OK\r\nResource-Identifier: b\r\n", fake_source()).unwrap();
    let a2 = parse_reply(b"HTTP/1.0 200 OK\r\nResource-Identifier: a\r\nName: two\r\n", fake_source()).unwrap();
    let merged = merge_replies(vec![a1, anon, b, a2]);
    assert_eq!(merged.len(), 3);
    assert_eq!(merged[0].machine_identifier.as_deref(), Some("a"));
    assert_eq!(merged[0].name.as_deref(), Some("two"));
    assert_eq!(merged[1].machine_identifier.as_deref(), Some("b"));
    assert_eq!(merged[2].name.as_deref(), Some("anon"));
}

#[test]
fn probe_constants() {
    assert_eq!(M_SEARCH, "M-SEARCH * HTTP/1.0\r\n\r\n");
    assert_eq!(SERVER_PORT, 32414);
}
