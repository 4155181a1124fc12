use osu_favorites::favorites::{
    favorites_url, parse_page_body, ids_from_member, ListError, Paginator, MAX_PAGES, PAGE_SIZE,
};

fn page_of(ids: &[u64]) -> Vec<u64> {
    ids.to_vec()
}

fn page_body(ids: &[u64]) -> Vec<u8> {
    let mut body = String::from("[");
    for (k, id) in ids.iter().enumerate() {
        if k > 0 {
            body.push(',');
        }
        body.push_str(&format!("{{\"id\":{}}}", id));
    }
    body.push(']');
    body.into_bytes()
}

#[test]
fn parse_page_reads_each_element_id() {
    let body = page_body(&[11, 22, 33]);
    assert_eq!(parse_page_body(&body), Ok(vec![11, 22, 33]));
}

#[test]
fn parse_page_keeps_repetitions_and_order() {
    let body = page_body(&[5, 5, 2]);
    assert_eq!(parse_page_body(&body), Ok(vec![5, 5, 2]));
}

#[test]
fn parse_page_accepts_empty_array() {
    let body = b"[]";
    assert_eq!(parse_page_body(body), Ok(vec![]));
}

#[test]
fn parse_page_rejects_non_array() {
    let body = b"{\"id\":1}";
    assert_eq!(parse_page_body(body), Err(ListError::BadPageBody));
}

#[test]
fn parse_page_rejects_element_without_id() {
    let body = b"[{\"id\":1},{\"name\":\"x\"}]";
    assert_eq!(parse_page_body(body), Err(ListError::BadPageBody));
}

#[test]
fn parse_page_rejects_non_numeric_id() {
    let body = b"[{\"id\":\"7\"}]";
    assert_eq!(parse_page_body(body), Err(ListError::BadPageBody));
}

#[test]
fn parse_page_rejects_non_json() {
    let body = b"<html></html>";
    assert_eq!(parse_page_body(body), Err(ListError::BadPageBody));
}

#[test]
fn page_member_absent_is_error() {
    assert_eq!(ids_from_member(None), Err(ListError::BadPageBody));
    assert_eq!(ids_from_member(Some(vec![1, 2])), Ok(vec![1, 2]));
}

#[test]
fn two_pages_yield_137_distinct_ids() {
    let first: Vec<u64> = (1000..1100).collect();
    let second: Vec<u64> = (2000..2037).collect();
    assert_eq!(first.len() as u64, PAGE_SIZE);

    let mut p = Paginator::new();
    assert!(!p.done());
    assert_eq!(p.next_offset(), 0);

    p.process_page(&first);
    assert!(!p.done(), "a full page must not finish the listing");
    assert_eq!(p.next_offset(), 100);

    p.process_page(&second);
    assert!(p.done(), "a short page finishes the listing");
    assert_eq!(p.pages_processed(), 2);
    assert_eq!(p.count(), 137);
}

#[test]
fn duplicates_across_pages_are_collected_once() {
    let first: Vec<u64> = (1..=100).collect();
    let mut second: Vec<u64> = (51..=100).collect();
    second.extend(101..=150);
    let third: Vec<u64> = vec![150, 150, 151];

    let mut p = Paginator::new();
    p.process_page(&first);
    p.process_page(&second);
    p.process_page(&third);
    assert!(p.done());

    let ids = p.into_ids();
    assert_eq!(ids.len(), 151);
    let mut sorted = ids.clone();
    sorted.sort();
    sorted.dedup();
    assert_eq!(sorted.len(), ids.len(), "no identifier is collected twice");
    assert_eq!(sorted, (1u64..=151).collect::<Vec<u64>>());
}

#[test]
fn full_page_of_duplicates_does_not_finish_the_listing() {
    // After two full pages of the same 100 identifiers the cumulative
    // total is still 100 — a multiple of the page size. A total-based
    // termination check would stop here; the paginator must not, since
    // the page itself was full.
    let first: Vec<u64> = (1..=100).collect();
    let second = first.clone();

    let mut p = Paginator::new();
    p.process_page(&first);
    assert!(!p.done());
    p.process_page(&second);
    assert_eq!(p.count(), 100);
    assert!(
        !p.done(),
        "a full page must keep the listing alive even when the total is a multiple of the page size"
    );

    p.process_page(&page_of(&[]));
    assert!(p.done());
    assert_eq!(p.count(), 100);
}

#[test]
fn page_cap_finishes_the_listing() {
    let mut p = Paginator::with_page_cap(2);
    let first: Vec<u64> = (0..100).collect();
    let second: Vec<u64> = (100..200).collect();
    p.process_page(&first);
    assert!(!p.done());
    p.process_page(&second);
    assert!(p.done(), "the page cap bounds the listing");
    assert_eq!(p.count(), 200);
}

#[test]
fn default_cap_is_max_pages() {
    assert_eq!(MAX_PAGES, 10000);
    let p = Paginator::new();
    assert!(!p.done());
    assert_eq!(p.pages_processed(), 0);
}

#[test]
fn offset_advances_by_page_size() {
    let full: Vec<u64> = (500..600).collect();
    let mut p = Paginator::new();
    assert_eq!(p.next_offset(), 0);
    p.process_page(&full);
    assert_eq!(p.next_offset(), 100);
    let next: Vec<u64> = (600..700).collect();
    p.process_page(&next);
    assert_eq!(p.next_offset(), 200);
}

#[test]
fn listing_url_holds_user_limit_and_offset() {
    let url = favorites_url(14852499, 200);
    assert_eq!(
        url.as_str(),
        "https://osu.ppy.sh/api/v2/users/14852499/beatmapsets/favourite?limit=100&offset=200"
    );
}
