use rudis::laws::glob_match;
use rudis::session::{PageKey, RedisSession};

fn chars(s: &str) -> Vec<char> {
    s.chars().collect()
}

fn matches(pattern: &str, name: &str) -> bool {
    glob_match(&chars(pattern), &chars(name))
}

#[test]
fn glob_star_matches_any_run() {
    assert!(matches("*", ""));
    assert!(matches("*", "anything"));
    assert!(matches("user:*", "user:1"));
    assert!(matches("user:*", "user:"));
    assert!(!matches("user:*", "session:1"));
    assert!(matches("*:1", "user:1"));
    assert!(matches("u*r:*", "user:42"));
}

#[test]
fn glob_question_mark_matches_one_character() {
    assert!(matches("user:?", "user:1"));
    assert!(!matches("user:?", "user:"));
    assert!(!matches("user:?", "user:12"));
}

#[test]
fn glob_literals_match_exactly() {
    assert!(matches("user:1", "user:1"));
    assert!(!matches("user:1", "user:2"));
    assert!(!matches("", "x"));
    assert!(matches("", ""));
}

#[test]
fn scan_keeps_only_keys_the_store_reports_for_the_pattern() {
    // The store evaluates the pattern server-side: every page of a
    // "user:*" scan holds only matching keys, and so, page after page,
    // does the cache.
    let mut s = RedisSession::new(chars("*"));
    s.scan(chars("user:*")).unwrap();
    s.apply_page(3, vec![
        PageKey { name: "user:1".to_string(), ttl: Some(10) },
        PageKey { name: "user:2".to_string(), ttl: None },
    ]);
    s.next().unwrap();
    s.apply_page(0, vec![
        PageKey { name: "user:2".to_string(), ttl: Some(5) },
        PageKey { name: "user:admin".to_string(), ttl: None },
    ]);
    assert!(s.done());
    let pattern = s.pattern.clone();
    for entry in s.iter_keys() {
        assert!(glob_match(&pattern, &entry.name.chars().collect()));
    }
    assert_eq!(s.count(), 3);
}
