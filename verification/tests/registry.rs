use rudis::input::KeyPress;
use rudis::registry::{App, Effect, RedisServer};
use rudis::session::PageKey;

fn chars(s: &str) -> Vec<char> {
    s.chars().collect()
}

fn server(name: &str) -> RedisServer {
    RedisServer::new(name.to_string(), "localhost".to_string(), 6379, None, None)
}

fn app_with_tabs(n: usize) -> App {
    let mut servers = Vec::new();
    for i in 0..n {
        servers.push(server(&format!("srv{}", i)));
    }
    App::new(servers, None)
}

/// An app whose first endpoint is connected with the given keys cached.
fn connected_app(keys: &[&str]) -> App {
    let mut app = app_with_tabs(1);
    let srv = &mut app.get_servers_mut()[0];
    let req = srv.connect().expect("a fresh connect requests the first page");
    assert_eq!(req.cursor, 0);
    assert_eq!(req.pattern, chars("*"));
    let sess = srv.get_session_mut().unwrap();
    let page: Vec<PageKey> =
        keys.iter().map(|k| PageKey { name: k.to_string(), ttl: None }).collect();
    sess.apply_page(0, page);
    app
}

#[test]
fn set_tab_clamps_past_the_end() {
    let mut app = app_with_tabs(3);
    app.set_tab(3);
    assert_eq!(app.current_tab(), 2);
    app.set_tab(100);
    assert_eq!(app.current_tab(), 2);
    app.set_tab(1);
    assert_eq!(app.current_tab(), 1);
}

#[test]
fn prev_tab_clamps_at_zero() {
    let mut app = app_with_tabs(3);
    assert_eq!(app.current_tab(), 0);
    app.prev_tab();
    assert_eq!(app.current_tab(), 0);
}

#[test]
fn next_tab_clamps_at_the_last() {
    let mut app = app_with_tabs(2);
    app.next_tab();
    assert_eq!(app.current_tab(), 1);
    app.next_tab();
    assert_eq!(app.current_tab(), 1);
}

#[test]
fn new_clamps_the_initial_tab() {
    let mut servers = Vec::new();
    servers.push(server("a"));
    servers.push(server("b"));
    let app = App::new(servers, Some(9));
    assert_eq!(app.current_tab(), 1);
}

#[test]
fn connect_is_idempotent() {
    let mut srv = server("a");
    assert!(!srv.is_connected());
    assert!(srv.connect().is_some());
    assert!(srv.is_connected());
    // Already connected: a no-op, no new scan.
    assert!(srv.connect().is_none());
    srv.disconnect();
    assert!(!srv.is_connected());
    assert!(srv.get_session().is_none());
}

#[test]
fn tab_keys_move_the_active_tab() {
    let mut app = app_with_tabs(3);
    assert!(matches!(app.handle_input(KeyPress::Char('l')), Effect::Idle));
    assert_eq!(app.current_tab(), 1);
    app.handle_input(KeyPress::Char('l'));
    app.handle_input(KeyPress::Char('l'));
    assert_eq!(app.current_tab(), 2);
    app.handle_input(KeyPress::Char('h'));
    assert_eq!(app.current_tab(), 1);
}

#[test]
fn quit_key_stops_when_not_viewing() {
    let mut app = app_with_tabs(1);
    assert!(app.running);
    app.handle_input(KeyPress::Char('q'));
    assert!(!app.running);
}

#[test]
fn quit_key_first_leaves_key_view() {
    let mut app = connected_app(&["a"]);
    app.handle_input(KeyPress::Char('j'));
    app.handle_input(KeyPress::Enter);
    {
        let sess = app.get_current_server().get_session().unwrap();
        assert_eq!(sess.viewing_key.as_deref(), Some("a"));
    }
    app.handle_input(KeyPress::Char('q'));
    assert!(app.running);
    assert_eq!(app.get_current_server().get_session().unwrap().viewing_key, None);
    app.handle_input(KeyPress::Char('q'));
    assert!(!app.running);
}

#[test]
fn navigation_keys_drive_selection_and_scroll() {
    let mut app = connected_app(&["a", "b"]);
    app.handle_input(KeyPress::Char('j'));
    assert_eq!(app.get_current_server().get_session().unwrap().selected, Some(0));
    app.handle_input(KeyPress::Char('j'));
    assert_eq!(app.get_current_server().get_session().unwrap().selected, Some(1));
    app.handle_input(KeyPress::Char('k'));
    assert_eq!(app.get_current_server().get_session().unwrap().selected, Some(0));
    // In key view the same keys scroll instead.
    app.handle_input(KeyPress::Enter);
    app.handle_input(KeyPress::Char('j'));
    app.handle_input(KeyPress::Char('j'));
    assert_eq!(app.get_current_server().get_session().unwrap().viewing_key_scroll, 2);
    app.handle_input(KeyPress::Char('k'));
    assert_eq!(app.get_current_server().get_session().unwrap().viewing_key_scroll, 1);
    // Esc leaves key view.
    app.handle_input(KeyPress::Esc);
    assert_eq!(app.get_current_server().get_session().unwrap().viewing_key, None);
}

#[test]
fn connect_key_only_requests_the_transport() {
    let mut app = app_with_tabs(1);
    assert!(matches!(app.handle_input(KeyPress::Char('c')), Effect::Connect));
    // The core itself does not connect; that is the embedding
    // program's part.
    assert!(!app.get_current_server().is_connected());
}

#[test]
fn filter_modal_edits_and_confirms() {
    // Enter FilterEntry with current pattern "user:*": the buffer
    // starts pre-seeded and editable.
    let mut app = connected_app(&["user:1"]);
    {
        let sess = app.get_current_server_mut().get_session_mut().unwrap();
        sess.scan(chars("user:*")).unwrap();
        sess.apply_page(0, vec![PageKey { name: "user:1".to_string(), ttl: None }]);
    }
    app.handle_input(KeyPress::Char('f'));
    assert!(app.entering_filter);
    assert_eq!(app.filter, chars("user:*"));
    app.handle_input(KeyPress::Backspace);
    assert_eq!(app.filter, chars("user:"));
    for _ in 0.."user:".len() {
        app.handle_input(KeyPress::Backspace);
    }
    assert_eq!(app.filter, chars(""));
    for c in "session:*".chars() {
        app.handle_input(KeyPress::Char(c));
    }
    assert_eq!(app.filter, chars("session:*"));
    // Confirming clears the cache and restarts pagination from the
    // start sentinel.
    let eff = app.handle_input(KeyPress::Enter);
    assert!(!app.entering_filter);
    match eff {
        Effect::Fetch(req) => {
            assert_eq!(req.cursor, 0);
            assert_eq!(req.pattern, chars("session:*"));
        },
        _ => panic!("confirming the filter must request a scan"),
    }
    let sess = app.get_current_server().get_session().unwrap();
    assert_eq!(sess.count(), 0);
    assert_eq!(sess.pattern, chars("session:*"));
}

#[test]
fn filter_escape_discards_edits() {
    let mut app = connected_app(&["a"]);
    app.handle_input(KeyPress::Char('f'));
    app.handle_input(KeyPress::Char('x'));
    app.handle_input(KeyPress::Esc);
    assert!(!app.entering_filter);
    // The session's pattern is untouched.
    assert_eq!(app.get_current_server().get_session().unwrap().pattern, chars("*"));
}

#[test]
fn filter_key_ignored_when_disconnected() {
    let mut app = app_with_tabs(1);
    app.handle_input(KeyPress::Char('f'));
    assert!(!app.entering_filter);
}

#[test]
fn unknown_keys_are_ignored() {
    let mut app = connected_app(&["a"]);
    let before_tab = app.current_tab();
    app.handle_input(KeyPress::Char('z'));
    app.handle_input(KeyPress::Backspace);
    assert!(app.running);
    assert_eq!(app.current_tab(), before_tab);
    assert_eq!(app.get_current_server().get_session().unwrap().count(), 1);
}

#[test]
fn enter_without_selection_is_a_no_op() {
    let mut app = connected_app(&["a"]);
    app.handle_input(KeyPress::Enter);
    assert_eq!(app.get_current_server().get_session().unwrap().viewing_key, None);
}

#[test]
fn push_server_keeps_the_active_tab() {
    let mut app = app_with_tabs(1);
    app.push_server(server("extra"));
    assert_eq!(app.get_servers().len(), 2);
    assert_eq!(app.current_tab(), 0);
}
