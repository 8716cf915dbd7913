use plex_rs::library::filters::FilterOp;
use plex_rs::library::smart_filter::{percent_decode_query, GroupMarker, SmartFilter, SmartToken};

#[test]
fn parses_bare_query_string() {
    let f = SmartFilter::from_uri("type=1&genre=2&year>=2000").unwrap();
    assert_eq!(f.libtype, Some(1));
    assert_eq!(f.clauses.len(), 2);
    assert_eq!(f.clauses[0].field, "genre");
    assert_eq!(f.clauses[0].op, FilterOp::Default);
    assert_eq!(f.clauses[0].values, vec!["2"]);
    assert_eq!(f.clauses[1].field, "year");
    assert_eq!(f.clauses[1].op, FilterOp::EndsWith);
    assert_eq!(f.clauses[1].values, vec!["2000"]);
}

#[test]
fn parses_bare_path_with_section_id() {
    let f = SmartFilter::from_uri("/library/sections/3/all?type=1&genre=2").unwrap();
    assert_eq!(f.section_id, Some(3));
    assert_eq!(f.libtype, Some(1));
    assert_eq!(f.clauses.len(), 1);
}

#[test]
fn parses_library_scheme_with_percent_encoded_inner_path() {
    let outer =
        "library://abcd1234/directory/%2Flibrary%2Fsections%2F1%2Fall%3Ftype%3D1%26genre%3D2";
    let f = SmartFilter::from_uri(outer).unwrap();
    assert_eq!(f.section_id, Some(1));
    assert_eq!(f.libtype, Some(1));
    assert_eq!(f.clauses[0].field, "genre");
}

#[test]
fn comma_separated_values_split() {
    let f = SmartFilter::from_uri("type=1&genre=2,3,7").unwrap();
    assert_eq!(f.clauses[0].values, vec!["2", "3", "7"]);
}

#[test]
fn operator_suffixes_dispatch_correctly() {
    let f = SmartFilter::from_uri(
        "year>>=2010&year<<=2020&title<=The&title>=Wars&studio==WB&studio!==Sony&actor!=tom",
    )
    .unwrap();
    let by_op: std::collections::HashMap<_, _> = f
        .clauses
        .iter()
        .map(|c| (c.field.clone() + c.op.wire_op(), c.values.first().cloned().unwrap_or_default()))
        .collect();
    assert_eq!(by_op.get("year>>=").map(String::as_str), Some("2010"));
    assert_eq!(by_op.get("year<<=").map(String::as_str), Some("2020"));
    assert_eq!(by_op.get("title<=").map(String::as_str), Some("The"));
    assert_eq!(by_op.get("title>=").map(String::as_str), Some("Wars"));
    assert_eq!(by_op.get("studio==").map(String::as_str), Some("WB"));
    assert_eq!(by_op.get("studio!==").map(String::as_str), Some("Sony"));
    assert_eq!(by_op.get("actor!=").map(String::as_str), Some("tom"));
}

#[test]
fn longest_suffix_wins_over_shorter() {
    let f = SmartFilter::from_uri("year>>=1990").unwrap();
    assert_eq!(f.clauses[0].field, "year");
    assert_eq!(f.clauses[0].op, FilterOp::GreaterThan);
}

#[test]
fn and_values_op_recognised() {
    let f = SmartFilter::from_uri("genre%26=2,3").unwrap();
    assert_eq!(f.clauses[0].op, FilterOp::AndValues);
    assert_eq!(f.clauses[0].field, "genre");
    assert_eq!(f.clauses[0].values, vec!["2", "3"]);
}

#[test]
fn group_markers_collected_in_order() {
    let f = SmartFilter::from_uri("push=1&genre=2&and=1&year>=2000&pop=1").unwrap();
    assert_eq!(f.clauses.len(), 2);
    assert_eq!(f.group_markers, vec![GroupMarker::Push, GroupMarker::And, GroupMarker::Pop]);
}

#[test]
fn or_marker_recognised() {
    let f = SmartFilter::from_uri("genre=2&or=1&genre=3").unwrap();
    assert_eq!(f.group_markers, vec![GroupMarker::Or]);
}

#[test]
fn sort_appears_once() {
    let f = SmartFilter::from_uri("type=1&sort=titleSort:desc").unwrap();
    assert_eq!(f.sort.as_deref(), Some("titleSort:desc"));
}

#[test]
fn sort_multi_segments_joined_with_comma() {
    let f = SmartFilter::from_uri("sort=year:desc&sort=titleSort:asc").unwrap();
    assert_eq!(f.sort.as_deref(), Some("year:desc,titleSort:asc"));
}

#[test]
fn unrecognised_keys_preserved_in_extra() {
    let f = SmartFilter::from_uri("type=1&customExtra=hello").unwrap();
    assert!(f.clauses.iter().any(|c| c.field == "customExtra"));
}

#[test]
fn percent_encoded_values_decoded() {
    let f = SmartFilter::from_uri("title==Hello%20World").unwrap();
    assert_eq!(f.clauses[0].values, vec!["Hello World"]);
}

#[test]
fn empty_input_rejected() {
    assert!(SmartFilter::from_uri("").is_err());
    assert!(SmartFilter::from_uri("   ").is_err());
}

#[test]
fn empty_value_yields_empty_values_vec() {
    let f = SmartFilter::from_uri("type=1&label=").unwrap();
    let label = f.clauses.iter().find(|c| c.field == "label").unwrap();
    assert!(label.values.is_empty());
}

#[test]
fn percent_decode_handles_plus_as_space() {
    let decoded = percent_decode_query("Hello+World").unwrap();
    assert_eq!(decoded, "Hello World");
}

#[test]
fn percent_decode_round_trips_hex_escapes() {
    let decoded = percent_decode_query("a%26b%3Dc").unwrap();
    assert_eq!(decoded, "a&b=c");
}

#[test]
fn percent_decode_invalid_escape_errors() {
    assert!(percent_decode_query("a%ZZb").is_err());
}

#[test]
fn section_id_extracted_only_when_path_matches() {
    let f = SmartFilter::from_uri("/something/else?type=1").unwrap();
    assert!(f.section_id.is_none());
}

#[test]
fn tokens_yields_clauses() {
    let f = SmartFilter::from_uri("genre=2&year>=2000").unwrap();
    let tokens = f.tokens();
    assert_eq!(tokens.len(), 2);
    assert!(tokens.iter().all(|t| matches!(t, SmartToken::Clause(_))));
}

#[test]
fn truncated_escape_is_kept_literally() {
    assert_eq!(percent_decode_query("abc%4").unwrap(), "abc%4");
    assert_eq!(percent_decode_query("%").unwrap(), "%");
    assert_eq!(percent_decode_query("x%41").unwrap(), "xA");
}

#[test]
fn url_with_plain_path_keeps_its_query() {
    let f = SmartFilter::from_uri("http://pms.local:32400/library/sections/7/all?type=2").unwrap();
    assert_eq!(f.section_id, Some(7));
    assert_eq!(f.libtype, Some(2));
}

#[test]
fn tokens_interleave_markers_in_source_order() {
    let f = SmartFilter::from_uri("push=1&genre=2&and=1&year>=2000&pop=1").unwrap();
    assert_eq!(f.marker_positions, vec![0, 1, 2]);
    let tokens = f.tokens();
    assert_eq!(
        tokens,
        vec![
            SmartToken::Marker(GroupMarker::Push),
            SmartToken::Clause(&f.clauses[0]),
            SmartToken::Marker(GroupMarker::And),
            SmartToken::Clause(&f.clauses[1]),
            SmartToken::Marker(GroupMarker::Pop),
        ]
    );
}

#[test]
fn blank_input_and_bad_escapes_are_rejected() {
    assert!(SmartFilter::from_uri("").is_err());
    assert!(SmartFilter::from_uri("   ").is_err());
    assert!(SmartFilter::from_uri("title==a%ZZb").is_err());
}

#[test]
fn percent_decode_errors_name_the_cause() {
    assert_eq!(percent_decode_query("a%ZZb").unwrap_err(), "invalid percent-escape at byte 1");
    assert_eq!(
        percent_decode_query("%FF").unwrap_err(),
        "decoded query was not utf-8: invalid utf-8 sequence of 1 bytes from index 0"
    );
}

#[test]
fn from_uri_errors_name_the_cause() {
    let msg = |r: Result<SmartFilter, plex_rs::error::Error>| match r {
        Err(plex_rs::error::Error::Config(m)) => m,
        Err(other) => panic!("unexpected {other:?}"),
        Ok(_) => panic!("expected an error"),
    };
    assert_eq!(msg(SmartFilter::from_uri("  ")), "smart-filter URI is empty");
    assert_eq!(msg(SmartFilter::from_uri("title==a%ZZb")), "invalid percent-escape at byte 1");
    assert_eq!(msg(SmartFilter::from_uri("not a uri")), "smart-filter URI not recognised: \"not a uri\"");
}
