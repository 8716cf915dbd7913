use plex_rs::pagination::{
    MediaContainerMeta, PageRange, HEADER_CONTAINER_SIZE, HEADER_CONTAINER_START,
};

fn meta_of(size: u32, total: Option<u32>) -> MediaContainerMeta {
    MediaContainerMeta { size, total_size: total, ..MediaContainerMeta::default() }
}

#[test]
fn first_page_helpers() {
    let p = PageRange::first(50);
    assert_eq!(p.start, 0);
    assert_eq!(p.size, 50);
    assert!(p.is_first());
}

#[test]
fn default_matches_pms_50() {
    let p = PageRange::default();
    assert_eq!(p, PageRange::first(50));
}

#[test]
fn renders_both_headers() {
    let p = PageRange::new(100, 25);
    let h = p.headers();
    assert_eq!(h[0], (HEADER_CONTAINER_START, "100".to_owned()));
    assert_eq!(h[1], (HEADER_CONTAINER_SIZE, "25".to_owned()));
}

#[test]
fn advance_stops_when_response_short() {
    let p = PageRange::first(50);
    let meta = meta_of(12, None);
    assert!(p.advance_with(&meta).is_none());
}

#[test]
fn advance_stops_at_known_total() {
    let p = PageRange::new(100, 50);
    let meta = meta_of(50, Some(120));
    assert!(p.advance_with(&meta).is_none());
}

#[test]
fn advance_continues_when_more_remain() {
    let p = PageRange::first(50);
    let meta = meta_of(50, Some(200));
    let next = p.advance_with(&meta).unwrap();
    assert_eq!(next, PageRange::new(50, 50));
    assert!(!next.is_first());
}

#[test]
fn advance_continues_when_total_unknown_but_full_page_returned() {
    let p = PageRange::first(50);
    let meta = meta_of(50, None);
    let next = p.advance_with(&meta).unwrap();
    assert_eq!(next, PageRange::new(50, 50));
}

#[test]
fn advance_handles_zero_size_safely() {
    let p = PageRange::new(0, 0);
    let meta = meta_of(0, None);
    assert!(p.advance_with(&meta).is_none());
}

#[test]
fn advance_saturates_on_overflow() {
    let p = PageRange::new(u32::MAX - 5, 50);
    let meta = meta_of(50, None);
    let next = p.advance_with(&meta).unwrap();
    assert_eq!(next.start, u32::MAX);
}

#[test]
fn advance_with_exact_boundary() {
    let p = PageRange::new(50, 50);
    let meta = meta_of(50, Some(100));
    assert!(p.advance_with(&meta).is_none());
}

#[test]
fn pages_walk_a_listing_without_gaps() {
    let total = 130u32;
    let mut p = PageRange::first(50);
    let mut starts = vec![p.start];
    loop {
        let returned = if total - p.start >= p.size { p.size } else { total - p.start };
        match p.advance_with(&meta_of(returned, Some(total))) {
            Some(next) => {
                assert_eq!(next.start, p.start + p.size);
                assert_eq!(next.size, p.size);
                p = next;
                starts.push(p.start);
            }
            None => break,
        }
    }
    assert_eq!(starts, vec![0, 50, 100]);
}

#[test]
fn advance_stops_when_returned_items_reach_total() {
    let p = PageRange::first(50);
    assert!(p.advance_with(&meta_of(60, Some(55))).is_none());
    let next = p.advance_with(&meta_of(60, Some(61))).unwrap();
    assert_eq!(next, PageRange::new(50, 50));
}
