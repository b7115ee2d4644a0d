use rudis::session::{PageKey, RedisSession, ScanCursor};

fn chars(s: &str) -> Vec<char> {
    s.chars().collect()
}

fn page(entries: &[(&str, Option<u64>)]) -> Vec<PageKey> {
    entries
        .iter()
        .map(|(name, ttl)| PageKey { name: name.to_string(), ttl: *ttl })
        .collect()
}

fn names(s: &RedisSession) -> Vec<String> {
    s.iter_keys().iter().map(|e| e.name.clone()).collect()
}

#[test]
fn fresh_session_is_not_done() {
    let s = RedisSession::new(chars("*"));
    // The start state must not be confused with "enumeration finished",
    // although the store uses cursor 0 for both.
    assert!(!s.done());
    assert_eq!(s.count(), 0);
}

#[test]
fn next_requests_first_page_from_start_sentinel() {
    let mut s = RedisSession::new(chars("*"));
    let req = s.next().expect("a fresh session must request a page");
    assert_eq!(req.cursor, 0);
    assert_eq!(req.pattern, chars("*"));
    assert!(s.loading);
}

#[test]
fn advance_while_loading_is_rejected() {
    // An in-flight fetch blocks any further request; the state is
    // unchanged.
    let mut s = RedisSession::new(chars("*"));
    assert!(s.next().is_some());
    let count_before = s.count();
    let done_before = s.done();
    assert!(s.next().is_none());
    assert!(s.scan(chars("*")).is_none());
    assert_eq!(s.count(), count_before);
    assert_eq!(s.done(), done_before);
    assert!(s.loading);
}

#[test]
fn scan_while_loading_resets_but_requests_nothing() {
    let mut s = RedisSession::new(chars("*"));
    s.next().unwrap();
    // The pattern change still invalidates the cache and cursor, but no
    // overlapping call is issued while the fetch is in flight.
    assert!(s.scan(chars("user:*")).is_none());
    assert_eq!(s.pattern, chars("user:*"));
    assert_eq!(s.count(), 0);
    assert!(!s.done());
    assert!(s.loading);
}

#[test]
fn apply_page_merges_and_finishes() {
    let mut s = RedisSession::new(chars("*"));
    s.next().unwrap();
    s.apply_page(17, page(&[("a", Some(10)), ("b", None)]));
    assert!(!s.loading);
    assert!(!s.done());
    assert_eq!(s.count(), 2);
    let req = s.next().unwrap();
    assert_eq!(req.cursor, 17);
    s.apply_page(0, page(&[("b", Some(99)), ("c", Some(7200))]));
    assert!(s.done());
    assert_eq!(s.count(), 3);
    assert_eq!(names(&s), vec!["a", "b", "c"]);
    // The key already cached kept its first-discovered TTL.
    assert_eq!(s.iter_keys()[1].meta.ttl, None);
    assert_eq!(s.iter_keys()[0].meta.ttl, Some(10));
    assert_eq!(s.iter_keys()[2].meta.ttl, Some(7200));
    // Enumeration finished: advancing is a no-op.
    assert!(s.next().is_none());
}

#[test]
fn duplicate_keys_within_a_page_collapse() {
    let mut s = RedisSession::new(chars("*"));
    s.next().unwrap();
    s.apply_page(0, page(&[("a", Some(1)), ("a", Some(2)), ("b", None)]));
    assert_eq!(names(&s), vec!["a", "b"]);
    assert_eq!(s.iter_keys()[0].meta.ttl, Some(1));
}

#[test]
fn cache_independent_of_page_split() {
    // The same key space split into different pages gives the same
    // eventual cache.
    let mut one = RedisSession::new(chars("*"));
    one.next().unwrap();
    one.apply_page(5, page(&[("a", Some(1))]));
    one.next().unwrap();
    one.apply_page(0, page(&[("b", Some(2)), ("c", None)]));

    let mut whole = RedisSession::new(chars("*"));
    whole.next().unwrap();
    whole.apply_page(0, page(&[("a", Some(1)), ("b", Some(2)), ("c", None)]));

    assert_eq!(names(&one), names(&whole));
    assert!(one.done() && whole.done());
}

#[test]
fn scan_with_new_pattern_invalidates_cache() {
    let mut s = RedisSession::new(chars("*"));
    s.next().unwrap();
    s.apply_page(0, page(&[("user:1", Some(10)), ("user:2", None)]));
    assert_eq!(s.count(), 2);
    let req = s.scan(chars("session:*")).expect("a page fetch is requested");
    // Full invalidation: the cache is cleared and pagination restarts
    // from the start sentinel.
    assert_eq!(s.count(), 0);
    assert_eq!(req.cursor, 0);
    assert_eq!(req.pattern, chars("session:*"));
    assert_eq!(s.pattern, chars("session:*"));
    assert!(!s.done());
}

#[test]
fn scan_with_same_pattern_keeps_cache() {
    let mut s = RedisSession::new(chars("*"));
    s.next().unwrap();
    s.apply_page(0, page(&[("a", None)]));
    let req = s.scan(chars("*")).unwrap();
    assert_eq!(s.count(), 1);
    // A re-scan under the unchanged pattern resumes at the current
    // cursor, here the completion/start sentinel.
    assert_eq!(req.cursor, 0);
}

#[test]
fn fetch_failure_keeps_cursor_and_cache() {
    let mut s = RedisSession::new(chars("*"));
    s.next().unwrap();
    s.apply_page(42, page(&[("a", None)]));
    s.next().unwrap();
    s.fetch_failed();
    assert!(!s.loading);
    assert_eq!(s.count(), 1);
    // A retry resumes exactly where the failed call left off.
    let retry = s.next().unwrap();
    assert_eq!(retry.cursor, 42);
}

#[test]
fn selection_wraps_both_ways() {
    let mut s = RedisSession::new(chars("*"));
    s.next().unwrap();
    s.apply_page(0, page(&[("a", None), ("b", None), ("c", None)]));
    assert_eq!(s.selected, None);
    s.select_next();
    assert_eq!(s.selected, Some(0));
    s.select_next();
    assert_eq!(s.selected, Some(1));
    s.select_next();
    assert_eq!(s.selected, Some(2));
    s.select_next();
    assert_eq!(s.selected, Some(0));
    s.select_prev();
    assert_eq!(s.selected, Some(2));
    s.select_prev();
    assert_eq!(s.selected, Some(1));
}

#[test]
fn selection_round_trip_returns_to_origin() {
    let mut s = RedisSession::new(chars("*"));
    s.next().unwrap();
    s.apply_page(0, page(&[("a", None), ("b", None), ("c", None)]));
    for start in 0..3usize {
        s.selected = Some(start);
        s.select_next();
        s.select_prev();
        assert_eq!(s.selected, Some(start));
        s.select_prev();
        s.select_next();
        assert_eq!(s.selected, Some(start));
    }
}

#[test]
fn empty_cache_selection_stays_none() {
    let mut s = RedisSession::new(chars("*"));
    s.select_next();
    assert_eq!(s.selected, None);
    s.select_prev();
    assert_eq!(s.selected, None);
}

#[test]
fn needs_more_follows_demand() {
    let mut s = RedisSession::new(chars("*"));
    assert!(s.needs_more(5));
    s.next().unwrap();
    // While a fetch is in flight no further pull is due.
    assert!(!s.needs_more(5));
    s.apply_page(9, page(&[("a", None), ("b", None)]));
    assert!(s.needs_more(5));
    assert!(!s.needs_more(2));
    s.next().unwrap();
    s.apply_page(0, page(&[("c", None)]));
    // Complete: no pull whatever the target.
    assert!(!s.needs_more(100));
}

#[test]
fn single_key_view_and_scroll() {
    let mut s = RedisSession::new(chars("*"));
    s.next().unwrap();
    s.apply_page(0, page(&[("a", None), ("b", None)]));
    s.view_selected();
    assert_eq!(s.viewing_key, None);  // no selection yet: a no-op
    s.select_next();
    s.select_next();
    s.view_selected();
    assert_eq!(s.viewing_key.as_deref(), Some("b"));
    assert_eq!(s.viewing_key_scroll, 0);
    s.scroll_down();
    s.scroll_down();
    assert_eq!(s.viewing_key_scroll, 2);
    s.scroll_up();
    s.scroll_up();
    s.scroll_up();
    // Scrolling up saturates at zero.
    assert_eq!(s.viewing_key_scroll, 0);
    s.stop_viewing();
    assert_eq!(s.viewing_key, None);
    assert_eq!(s.viewing_key_scroll, 0);
}

#[test]
fn cursor_states_are_distinct() {
    let mut s = RedisSession::new(chars("*"));
    assert_eq!(s.cursor, ScanCursor::NotStarted);
    s.next().unwrap();
    s.apply_page(7, Vec::new());
    assert_eq!(s.cursor, ScanCursor::InProgress(7));
    s.next().unwrap();
    s.apply_page(0, Vec::new());
    assert_eq!(s.cursor, ScanCursor::Complete);
}
