use plex_rs::library::filters::{FilterBuilder, FilterOp, SortDirection};

#[test]
fn empty_builder_emits_empty_string() {
    let b = FilterBuilder::new();
    assert!(b.is_empty());
    assert_eq!(b.build_query(), "");
}

#[test]
fn filter_op_wire_suffixes_match_plex_docs() {
    assert_eq!(FilterOp::Default.wire_op(), "=");
    assert_eq!(FilterOp::Not.wire_op(), "!=");
    assert_eq!(FilterOp::Exact.wire_op(), "==");
    assert_eq!(FilterOp::NotExact.wire_op(), "!==");
    assert_eq!(FilterOp::StartsWith.wire_op(), "<=");
    assert_eq!(FilterOp::EndsWith.wire_op(), ">=");
    assert_eq!(FilterOp::GreaterThan.wire_op(), ">>=");
    assert_eq!(FilterOp::LessThan.wire_op(), "<<=");
    assert_eq!(FilterOp::AndValues.wire_op(), "&=");
}

#[test]
fn equal_clause_emits_default_op() {
    let q = FilterBuilder::new().equal("genre", "Action").build_query();
    assert_eq!(q, "genre=Action");
}

#[test]
fn not_equal_clause_emits_negation() {
    let q = FilterBuilder::new().not_equal("genre", "Comedy").build_query();
    assert_eq!(q, "genre!=Comedy");
}

#[test]
fn exact_clauses_for_strings() {
    let q = FilterBuilder::new().exact("title", "Arrival").build_query();
    assert_eq!(q, "title==Arrival");
}

#[test]
fn starts_with_uses_str_begin_op() {
    let q = FilterBuilder::new().starts_with("title", "Blade").build_query();
    assert_eq!(q, "title<=Blade");
}

#[test]
fn ends_with_uses_str_end_op() {
    let q = FilterBuilder::new().ends_with("title", "Runner").build_query();
    assert_eq!(q, "title>=Runner");
}

#[test]
fn gt_lt_use_double_arrow_for_int_datetime() {
    let q = FilterBuilder::new()
        .gt("year", &2020.to_string())
        .lt("year", &2025.to_string())
        .build_query();
    assert_eq!(q, "year>>=2020&year<<=2025");
}

#[test]
fn and_values_joins_with_commas() {
    let q = FilterBuilder::new().and_values("genre", &["Action", "Sci-Fi"]).build_query();
    assert_eq!(q, "genre&=Action%2CSci-Fi");
}

#[test]
fn sort_by_uses_colon_with_pct_encoded_direction_separator() {
    let q = FilterBuilder::new().sort_by("titleSort").build_query();
    assert_eq!(q, "sort=titleSort%3Aasc");
    let q = FilterBuilder::new().sort_by_desc("addedAt").build_query();
    assert_eq!(q, "sort=addedAt%3Adesc");
}

#[test]
fn limit_offset_size_each_render() {
    let q = FilterBuilder::new().limit(50).offset(100).page_size(25).build_query();
    assert_eq!(q, "limit=50&X-Plex-Container-Start=100&X-Plex-Container-Size=25");
}

#[test]
fn libtype_emits_type_param() {
    let q = FilterBuilder::new().libtype(1).build_query();
    assert_eq!(q, "type=1");
}

#[test]
fn full_chain_round_trips_in_insertion_order() {
    let q = FilterBuilder::new()
        .libtype(1)
        .equal("genre", "Action")
        .gt("year", &2010.to_string())
        .sort_by_desc("rating")
        .limit(20)
        .build_query();
    assert_eq!(q, "type=1&genre=Action&year>>=2010&sort=rating%3Adesc&limit=20");
}

#[test]
fn pct_encoding_handles_spaces_and_punctuation() {
    let q = FilterBuilder::new().equal("director", "Denis Villeneuve").build_query();
    assert_eq!(q, "director=Denis%20Villeneuve");
}

#[test]
fn explicit_clause_with_custom_op() {
    let q = FilterBuilder::new().clause("custom", FilterOp::AndValues, "a,b,c").build_query();
    assert_eq!(q, "custom&=a%2Cb%2Cc");
}

#[test]
fn sort_direction_wire_spellings() {
    assert_eq!(SortDirection::Asc.as_wire(), "asc");
    assert_eq!(SortDirection::Desc.as_wire(), "desc");
}

#[test]
fn non_ascii_values_are_utf8_percent_encoded() {
    let q = FilterBuilder::new().equal("title", "Amélie").build_query();
    assert_eq!(q, "title=Am%C3%A9lie");
}

#[test]
fn clause_only_builder_is_not_empty() {
    assert!(!FilterBuilder::new().equal("a", "b").is_empty());
    assert!(!FilterBuilder::new().limit(1).is_empty());
}

#[test]
fn later_sort_replaces_earlier_sort() {
    let twice = FilterBuilder::new().sort_by("titleSort").sort_by_desc("addedAt").build_query();
    let once = FilterBuilder::new().sort_by_desc("addedAt").build_query();
    assert_eq!(twice, once);
    assert_eq!(once, "sort=addedAt%3Adesc");
}
