//! The endpoint/tab registry and the modal input state machine.
//!
//! An [`App`] owns the ordered endpoint list and the active tab index
//! (always a valid index into the non-empty list, clamped on every
//! mutation). [`App::handle_input`] interprets one key press against
//! the current mode and mutates only the active tab's endpoint; any
//! outside work the transition calls for comes back as an [`Effect`]
//! for the embedding program to perform.
use vstd::prelude::*;

use crate::clone_chars;
use crate::input::KeyPress;
use crate::session::{
    next_selection, prev_selection, scan_step, PageRequest, RedisSession,
};

verus! {

/// The outside work one input transition asks the embedding program to
/// perform. The core never performs network calls itself.
pub enum Effect {
    /// Nothing to do.
    Idle,
    /// Perform one enumeration call against the active endpoint's
    /// session and report the outcome through
    /// [`RedisSession::apply_page`] or [`RedisSession::fetch_failed`].
    Fetch(PageRequest),
    /// Open a transport connection to the active endpoint, then call
    /// [`RedisServer::connect`] on it (a no-op if already connected).
    Connect,
}

/// One configured remote endpoint and, while connected, its session.
/// An endpoint has a session if and only if it is connected.
pub struct RedisServer {
    pub name: String,
    pub host: String,
    pub port: u16,
    pub username: Option<String>,
    pub password: Option<String>,
    /// The owned session; present exactly while connected.
    /// Disconnecting destroys it.
    pub session: Option<RedisSession>,
}

/// The endpoint's identity and credentials are untouched.
pub open spec fn same_endpoint(a: RedisServer, b: RedisServer) -> bool {
    &&& a.name == b.name
    &&& a.host == b.host
    &&& a.port == b.port
    &&& a.username == b.username
    &&& a.password == b.password
}

impl RedisServer {
    pub open spec fn wf(self) -> bool {
        self.session matches Option::Some(s) ==> s.wf()
    }

    pub fn new(
        name: String,
        host: String,
        port: u16,
        username: Option<String>,
        password: Option<String>,
    ) -> (r: RedisServer)
        ensures
            r.wf(),
            r.name == name,
            r.host == host,
            r.port == port,
            r.username == username,
            r.password == password,
            r.session is None,
    {
        RedisServer { name, host, port, username, password, session: Option::None }
    }

    /// Create the session after the embedding program opened the
    /// transport connection. Idempotent: a no-op if already connected.
    /// Otherwise the fresh session starts a full-pattern (`*`) scan at
    /// the start sentinel, and the returned request must be performed
    /// so that a freshly connected endpoint has its first page cached.
    /// On a transport failure the embedding program never calls this,
    /// so no session is created.
    pub fn connect(&mut self) -> (r: Option<PageRequest>)
        requires
            old(self).wf(),
        ensures
            final(self).wf(),
            same_endpoint(*old(self), *final(self)),
            old(self).session is Some ==> *final(self) == *old(self) && r is None,
            old(self).session is None ==> ({
                &&& (final(self).session matches Option::Some(s) && s.pattern@ == seq!['*']
                    && s.cursor is NotStarted && s.keys@.len() == 0 && s.loading && s.selected
                    is None && s.viewing_key is None)
                &&& (r matches Option::Some(req) && req.cursor == 0 && req.pattern@ == seq!['*'])
            }),
    {
        if self.session.is_some() {
            return Option::None;
        }
        let mut session = RedisSession::new(vec!['*']);
        let req = session.next();
        self.session = Option::Some(session);
        req
    }

    /// Drop the session unconditionally.
    pub fn disconnect(&mut self)
        ensures
            final(self).wf(),
            same_endpoint(*old(self), *final(self)),
            final(self).session is None,
    {
        self.session = Option::None;
    }

    pub fn is_connected(&self) -> (r: bool)
        ensures
            r == (self.session is Some),
    {
        self.session.is_some()
    }

    pub fn get_session(&self) -> (r: Option<&RedisSession>)
        ensures
            r is Some <==> self.session is Some,
            self.session matches Option::Some(s) ==> (r matches Option::Some(rs) && *rs == s),
    {
        self.session.as_ref()
    }

    pub fn get_session_mut(&mut self) -> (r: Option<&mut RedisSession>)
        ensures
            r is Some <==> old(self).session is Some,
            old(self).session is None ==> *final(self) == *old(self),
            old(self).session matches Option::Some(s) ==> (r matches Option::Some(rs) && *rs == s
                && same_endpoint(*old(self), *final(self)) && final(self).session
                == Option::Some(*final(rs))),
    {
        match &mut self.session {
            Option::Some(s) => Option::Some(s),
            Option::None => Option::None,
        }
    }
}

/// A tab index clamped into the endpoint list: past-the-end indices
/// land on the last tab. Tab navigation clamps instead of wrapping —
/// deliberately asymmetric with key selection, which wraps.
pub open spec fn clamp_tab(tab: int, len: int) -> int
    recommends
        len >= 1,
{
    if tab >= len {
        len - 1
    } else {
        tab
    }
}

/// The application state: the ordered endpoint list, the active tab,
/// the running flag, and the filter-entry mode with its input buffer.
pub struct App {
    pub servers: Vec<RedisServer>,
    /// The active tab; always a valid index into the non-empty
    /// endpoint list.
    pub current_tab: usize,
    /// Cleared to stop the application.
    pub running: bool,
    /// True while the filter input modal is open (FilterEntry mode).
    pub entering_filter: bool,
    /// The filter input buffer; meaningful only in FilterEntry mode.
    pub filter: Vec<char>,
}

impl App {
    /// Validity: the endpoint list is non-empty, the active tab is in
    /// range, and every endpoint is valid.
    pub open spec fn wf(self) -> bool {
        &&& self.servers@.len() >= 1
        &&& self.current_tab < self.servers@.len()
        &&& forall|i: int| 0 <= i < self.servers@.len() ==> self.servers@[i].wf()
    }

    /// The active tab's endpoint.
    pub open spec fn active(self) -> RedisServer {
        self.servers@[self.current_tab as int]
    }

    pub fn new(servers: Vec<RedisServer>, initial_tab: Option<usize>) -> (r: App)
        requires
            servers@.len() >= 1,
            forall|i: int| 0 <= i < servers@.len() ==> servers@[i].wf(),
        ensures
            r.wf(),
            r.servers == servers,
            r.current_tab == clamp_tab(
                (match initial_tab {
                    Option::Some(t) => t as int,
                    Option::None => 0,
                }),
                servers@.len() as int,
            ),
            r.running,
            !r.entering_filter,
            r.filter@ == Seq::<char>::empty(),
    {
        let want = match initial_tab {
            Option::Some(t) => t,
            Option::None => 0,
        };
        let tab = if want >= servers.len() {
            servers.len() - 1
        } else {
            want
        };
        let r = App {
            servers,
            current_tab: tab,
            running: true,
            entering_filter: false,
            filter: Vec::new(),
        };
        proof {
            assert(r.filter@ =~= Seq::<char>::empty());
        }
        r
    }

    /// Activate tab `tab`, clamped into the endpoint list.
    pub fn set_tab(&mut self, tab: usize)
        requires
            old(self).wf(),
        ensures
            final(self).wf(),
            final(self).current_tab == clamp_tab(tab as int, old(self).servers@.len() as int),
            final(self).servers == old(self).servers,
            final(self).running == old(self).running,
            final(self).entering_filter == old(self).entering_filter,
            final(self).filter == old(self).filter,
    {
        self.current_tab = if tab >= self.servers.len() {
            self.servers.len() - 1
        } else {
            tab
        };
    }

    /// Activate the tab to the right; clamps at the last tab.
    pub fn next_tab(&mut self)
        requires
            old(self).wf(),
        ensures
            final(self).wf(),
            final(self).current_tab == clamp_tab(
                old(self).current_tab + 1,
                old(self).servers@.len() as int,
            ),
            final(self).servers == old(self).servers,
            final(self).running == old(self).running,
            final(self).entering_filter == old(self).entering_filter,
            final(self).filter == old(self).filter,
    {
        let n = self.servers.len();
        let tab = self.current_tab;
        proof {
            // The tab is in range, so incrementing it cannot overflow.
            assert(tab < n);
        }
        self.set_tab(tab + 1);
    }

    /// Activate the tab to the left; clamps at the first tab (an index
    /// below zero is taken as zero).
    pub fn prev_tab(&mut self)
        requires
            old(self).wf(),
        ensures
            final(self).wf(),
            final(self).current_tab == (if old(self).current_tab > 0 {
                old(self).current_tab - 1
            } else {
                0int
            }),
            final(self).servers == old(self).servers,
            final(self).running == old(self).running,
            final(self).entering_filter == old(self).entering_filter,
            final(self).filter == old(self).filter,
    {
        let tab = self.current_tab;
        if tab > 0 {
            self.set_tab(tab - 1);
        } else {
            self.set_tab(0);
        }
    }

    pub fn current_tab(&self) -> (r: usize)
        ensures
            r == self.current_tab,
    {
        self.current_tab
    }

    pub fn get_servers(&self) -> (r: &Vec<RedisServer>)
        ensures
            r == &self.servers,
    {
        &self.servers
    }

    pub fn get_servers_mut(&mut self) -> (r: &mut Vec<RedisServer>)
        ensures
            *r == old(self).servers,
            final(self).servers == *final(r),
            final(self).current_tab == old(self).current_tab,
            final(self).running == old(self).running,
            final(self).entering_filter == old(self).entering_filter,
            final(self).filter == old(self).filter,
    {
        &mut self.servers
    }

    /// Append an endpoint; the active tab is unchanged and stays valid.
    pub fn push_server(&mut self, server: RedisServer)
        requires
            old(self).wf(),
            server.wf(),
        ensures
            final(self).wf(),
            final(self).servers@ == old(self).servers@.push(server),
            final(self).current_tab == old(self).current_tab,
            final(self).running == old(self).running,
            final(self).entering_filter == old(self).entering_filter,
            final(self).filter == old(self).filter,
    {
        self.servers.push(server);
    }

    pub fn get_current_server(&self) -> (r: &RedisServer)
        requires
            self.wf(),
        ensures
            *r == self.active(),
    {
        &self.servers[self.current_tab]
    }

    pub fn get_current_server_mut(&mut self) -> (r: &mut RedisServer)
        requires
            old(self).wf(),
        ensures
            *r == old(self).active(),
            final(self).servers@ == old(self).servers@.update(
                old(self).current_tab as int,
                *final(r),
            ),
            final(self).current_tab == old(self).current_tab,
            final(self).running == old(self).running,
            final(self).entering_filter == old(self).entering_filter,
            final(self).filter == old(self).filter,
    {
        let tab = self.current_tab;
        &mut self.servers[tab]
    }
}

/// Only the session's view sub-state (viewed key, scroll) may differ.
pub open spec fn same_but_view(a: RedisSession, b: RedisSession) -> bool {
    &&& b.pattern == a.pattern
    &&& b.cursor == a.cursor
    &&& b.keys == a.keys
    &&& b.selected == a.selected
    &&& b.loading == a.loading
}

/// Only the session's selection may differ.
pub open spec fn same_but_selection(a: RedisSession, b: RedisSession) -> bool {
    &&& b.pattern == a.pattern
    &&& b.cursor == a.cursor
    &&& b.keys == a.keys
    &&& b.viewing_key == a.viewing_key
    &&& b.viewing_key_scroll == a.viewing_key_scroll
    &&& b.loading == a.loading
}

/// One scroll step down, saturating at the largest offset.
pub open spec fn scrolled_down(pre: u16, post: u16) -> bool {
    if pre < u16::MAX {
        post == pre + 1
    } else {
        post == pre
    }
}

/// One scroll step up, saturating at zero.
pub open spec fn scrolled_up(pre: u16, post: u16) -> bool {
    if pre > 0 {
        post == pre - 1
    } else {
        post == 0
    }
}

/// The endpoint is connected and its session is in single-key view.
pub open spec fn session_viewing(server: RedisServer) -> bool {
    server.session matches Option::Some(s) && s.viewing_key is Some
}

impl App {
    /// Everything but the active endpoint's session is untouched: the
    /// tab, the other endpoints, and the active endpoint's identity.
    pub open spec fn frame(pre: App, post: App) -> bool {
        &&& post.current_tab == pre.current_tab
        &&& post.servers@.len() == pre.servers@.len()
        &&& (forall|i: int|
            0 <= i < pre.servers@.len() && i != pre.current_tab ==> post.servers@[i]
                == pre.servers@[i])
        &&& same_endpoint(pre.active(), post.active())
    }

    /// Confirm the filter modal: when connected, re-scan the active
    /// session under the buffer; always return to browse.
    fn confirm_filter(&mut self) -> (eff: Effect)
        requires
            old(self).wf(),
        ensures
            final(self).wf(),
            App::frame(*old(self), *final(self)),
            final(self).running == old(self).running,
            !final(self).entering_filter,
            final(self).filter == old(self).filter,
            old(self).active().session is None ==> final(self).active() == old(self).active()
                && eff is Idle,
            old(self).active().session matches Option::Some(ss) ==> (final(self).active().session
                matches Option::Some(fs) && ({
                ||| (eff matches Effect::Fetch(req) && scan_step(
                    ss,
                    fs,
                    old(self).filter@,
                    Option::Some(req),
                ))
                ||| (eff is Idle && scan_step(ss, fs, old(self).filter@, Option::<
                    PageRequest,
                >::None))
            })),
    {
        self.entering_filter = false;
        let pattern = clone_chars(&self.filter);
        let tab = self.current_tab;
        let server = &mut self.servers[tab];
        match &mut server.session {
            Option::Some(sess) => {
                match sess.scan(pattern) {
                    Option::Some(req) => Effect::Fetch(req),
                    Option::None => Effect::Idle,
                }
            },
            Option::None => Effect::Idle,
        }
    }

    /// The quit key: leaves single-key view when one is open, otherwise
    /// clears the running flag.
    fn quit_key(&mut self)
        requires
            old(self).wf(),
        ensures
            final(self).wf(),
            App::frame(*old(self), *final(self)),
            final(self).entering_filter == old(self).entering_filter,
            final(self).filter == old(self).filter,
            session_viewing(old(self).active()) ==> ({
                &&& final(self).running == old(self).running
                &&& (old(self).active().session matches Option::Some(ss) && final(self).active().session matches Option::Some(fs) && same_but_view(ss, fs)
                    && fs.viewing_key is None && fs.viewing_key_scroll == 0)
            }),
            !session_viewing(old(self).active()) ==> !final(self).running && final(self).active()
                == old(self).active(),
    {
        let tab = self.current_tab;
        let server = &mut self.servers[tab];
        let mut left_view = false;
        match &mut server.session {
            Option::Some(sess) => {
                if sess.viewing_key.is_some() {
                    sess.stop_viewing();
                    left_view = true;
                }
            },
            Option::None => {},
        }
        if !left_view {
            self.running = false;
        }
    }

    /// The down key in browse: scrolls the open single-key view, or
    /// steps the selection forward; ignored when disconnected.
    fn nav_down(&mut self)
        requires
            old(self).wf(),
        ensures
            final(self).wf(),
            App::frame(*old(self), *final(self)),
            final(self).running == old(self).running,
            final(self).entering_filter == old(self).entering_filter,
            final(self).filter == old(self).filter,
            old(self).active().session is None ==> final(self).active() == old(self).active(),
            old(self).active().session matches Option::Some(ss) ==> (final(self).active().session
                matches Option::Some(fs) && ({
                &&& (ss.viewing_key is Some ==> same_but_view(ss, fs) && fs.viewing_key
                    == ss.viewing_key && scrolled_down(
                    ss.viewing_key_scroll,
                    fs.viewing_key_scroll,
                ))
                &&& (ss.viewing_key is None ==> same_but_selection(ss, fs) && fs.selected
                    == next_selection(ss.selected, ss.keys@.len() as usize))
            })),
    {
        let tab = self.current_tab;
        let server = &mut self.servers[tab];
        match &mut server.session {
            Option::Some(sess) => {
                if sess.viewing_key.is_some() {
                    sess.scroll_down();
                } else {
                    sess.select_next();
                }
            },
            Option::None => {},
        }
    }

    /// The up key in browse: mirror of the down key.
    fn nav_up(&mut self)
        requires
            old(self).wf(),
        ensures
            final(self).wf(),
            App::frame(*old(self), *final(self)),
            final(self).running == old(self).running,
            final(self).entering_filter == old(self).entering_filter,
            final(self).filter == old(self).filter,
            old(self).active().session is None ==> final(self).active() == old(self).active(),
            old(self).active().session matches Option::Some(ss) ==> (final(self).active().session
                matches Option::Some(fs) && ({
                &&& (ss.viewing_key is Some ==> same_but_view(ss, fs) && fs.viewing_key
                    == ss.viewing_key && scrolled_up(
                    ss.viewing_key_scroll,
                    fs.viewing_key_scroll,
                ))
                &&& (ss.viewing_key is None ==> same_but_selection(ss, fs) && fs.selected
                    == prev_selection(ss.selected, ss.keys@.len() as usize))
            })),
    {
        let tab = self.current_tab;
        let server = &mut self.servers[tab];
        match &mut server.session {
            Option::Some(sess) => {
                if sess.viewing_key.is_some() {
                    sess.scroll_up();
                } else {
                    sess.select_prev();
                }
            },
            Option::None => {},
        }
    }

    /// The filter key: when connected, open the filter modal seeded
    /// with the active session's current pattern.
    fn seed_filter(&mut self)
        requires
            old(self).wf(),
        ensures
            final(self).wf(),
            final(self).servers == old(self).servers,
            final(self).current_tab == old(self).current_tab,
            final(self).running == old(self).running,
            old(self).active().session matches Option::Some(ss) ==> final(self).entering_filter
                && final(self).filter@ == ss.pattern@,
            old(self).active().session is None ==> final(self).entering_filter == old(self).entering_filter && final(self).filter == old(self).filter,
    {
        let tab = self.current_tab;
        let seeded: Option<Vec<char>> = match &self.servers[tab].session {
            Option::Some(sess) => Option::Some(clone_chars(&sess.pattern)),
            Option::None => Option::None,
        };
        match seeded {
            Option::Some(p) => {
                self.entering_filter = true;
                self.filter = p;
            },
            Option::None => {},
        }
    }

    /// The confirm key in browse: enter single-key view on the current
    /// selection; a no-op without a selection or a connection.
    fn enter_view(&mut self)
        requires
            old(self).wf(),
        ensures
            final(self).wf(),
            App::frame(*old(self), *final(self)),
            final(self).running == old(self).running,
            final(self).entering_filter == old(self).entering_filter,
            final(self).filter == old(self).filter,
            old(self).active().session is None ==> final(self).active() == old(self).active(),
            old(self).active().session matches Option::Some(ss) ==> (final(self).active().session
                matches Option::Some(fs) && ({
                &&& (ss.selected matches Option::Some(i) ==> same_but_view(ss, fs) && (
                fs.viewing_key matches Option::Some(k) && k == ss.keys@[i as int].name)
                    && fs.viewing_key_scroll == 0)
                &&& (ss.selected is None ==> fs == ss)
            })),
    {
        let tab = self.current_tab;
        let server = &mut self.servers[tab];
        match &mut server.session {
            Option::Some(sess) => {
                sess.view_selected();
            },
            Option::None => {},
        }
    }

    /// The cancel key in browse: leave single-key view if one is open.
    fn cancel_view(&mut self)
        requires
            old(self).wf(),
        ensures
            final(self).wf(),
            App::frame(*old(self), *final(self)),
            final(self).running == old(self).running,
            final(self).entering_filter == old(self).entering_filter,
            final(self).filter == old(self).filter,
            old(self).active().session is None ==> final(self).active() == old(self).active(),
            old(self).active().session matches Option::Some(ss) ==> (final(self).active().session
                matches Option::Some(fs) && same_but_view(ss, fs) && fs.viewing_key is None
                && fs.viewing_key_scroll == 0),
    {
        let tab = self.current_tab;
        let server = &mut self.servers[tab];
        match &mut server.session {
            Option::Some(sess) => {
                sess.stop_viewing();
            },
            Option::None => {},
        }
    }

    /// Interpret one key press against the current mode (the filter
    /// modal when it is open, otherwise browse, further narrowed by the
    /// active session's view sub-state) and apply it to the active
    /// tab's endpoint only. Inputs a state does not interpret are
    /// ignored. Returns the outside work the transition asks for.
    pub fn handle_input(&mut self, key: KeyPress) -> (eff: Effect)
        requires
            old(self).wf(),
        ensures
            final(self).wf(),
            final(self).servers@.len() == old(self).servers@.len(),
            // Only the active tab's endpoint is ever touched.
            forall|i: int|
                0 <= i < old(self).servers@.len() && i != old(self).current_tab ==> final(self).servers@[i] == old(self).servers@[i],
            // While the filter modal is open, tabs and the running flag
            // are untouched.
            old(self).entering_filter ==> final(self).current_tab == old(self).current_tab
                && final(self).running == old(self).running,
            // Filter modal, escape: discard the edits and return to browse.
            old(self).entering_filter && key is Esc ==> ({
                &&& !final(self).entering_filter
                &&& final(self).filter == old(self).filter
                &&& final(self).servers == old(self).servers
                &&& eff is Idle
            }),
            // Filter modal, backspace: drop the buffer's last character.
            old(self).entering_filter && key is Backspace ==> ({
                &&& final(self).entering_filter
                &&& final(self).filter@ == (if old(self).filter@.len() > 0 {
                    old(self).filter@.drop_last()
                } else {
                    old(self).filter@
                })
                &&& final(self).servers == old(self).servers
                &&& eff is Idle
            }),
            // Filter modal, a printable character: append it.
            old(self).entering_filter ==> (key matches KeyPress::Char(c) ==> ({
                &&& final(self).entering_filter
                &&& final(self).filter@ == old(self).filter@.push(c)
                &&& final(self).servers == old(self).servers
                &&& eff is Idle
            })),
            // Filter modal, confirm: if connected, re-scan under the
            // buffer; in all cases return to browse with the buffer kept.
            old(self).entering_filter && key is Enter ==> ({
                &&& !final(self).entering_filter
                &&& final(self).filter == old(self).filter
                &&& same_endpoint(old(self).active(), final(self).active())
                &&& (old(self).active().session is None ==> final(self).active() == old(self).active() && eff is Idle)
                &&& (old(self).active().session matches Option::Some(ss) ==> (final(self).active().session matches Option::Some(fs) && ({
                    ||| (eff matches Effect::Fetch(req) && scan_step(
                        ss,
                        fs,
                        old(self).filter@,
                        Option::Some(req),
                    ))
                    ||| (eff is Idle && scan_step(ss, fs, old(self).filter@, Option::<
                        PageRequest,
                    >::None))
                })))
            }),
            // Browse: only the tab keys move the active tab.
            !old(self).entering_filter ==> final(self).current_tab as int == (
            if key == KeyPress::Char('h') {
                if old(self).current_tab > 0 {
                    old(self).current_tab - 1
                } else {
                    0int
                }
            } else if key == KeyPress::Char('l') {
                clamp_tab(old(self).current_tab + 1, old(self).servers@.len() as int)
            } else {
                old(self).current_tab as int
            }),
            // Browse, quit key: leaves single-key view when one is open,
            // otherwise stops the application.
            !old(self).entering_filter && key == KeyPress::Char('q') ==> ({
                &&& eff is Idle
                &&& final(self).entering_filter == old(self).entering_filter
                &&& final(self).filter == old(self).filter
                &&& same_endpoint(old(self).active(), final(self).active())
                &&& (session_viewing(old(self).active()) ==> ({
                    &&& final(self).running == old(self).running
                    &&& (old(self).active().session matches Option::Some(ss) && final(self).active().session matches Option::Some(fs) && same_but_view(ss, fs)
                        && fs.viewing_key is None && fs.viewing_key_scroll == 0)
                }))
                &&& (!session_viewing(old(self).active()) ==> !final(self).running && final(self).active() == old(self).active())
            }),
            // Browse, tab keys: everything but the active tab unchanged.
            !old(self).entering_filter && (key == KeyPress::Char('h') || key == KeyPress::Char(
                'l',
            )) ==> ({
                &&& eff is Idle
                &&& final(self).servers == old(self).servers
                &&& final(self).running == old(self).running
                &&& final(self).entering_filter == old(self).entering_filter
                &&& final(self).filter == old(self).filter
            }),
            // Browse, down key: scrolls the single-key view when one is
            // open, otherwise steps the selection forward; ignored when
            // disconnected.
            !old(self).entering_filter && key == KeyPress::Char('j') ==> ({
                &&& eff is Idle
                &&& final(self).running == old(self).running
                &&& final(self).entering_filter == old(self).entering_filter
                &&& final(self).filter == old(self).filter
                &&& same_endpoint(old(self).active(), final(self).active())
                &&& (old(self).active().session is None ==> final(self).active() == old(self).active())
                &&& (old(self).active().session matches Option::Some(ss) ==> (final(self).active().session matches Option::Some(fs) && ({
                    &&& (ss.viewing_key is Some ==> same_but_view(ss, fs) && fs.viewing_key
                        == ss.viewing_key && scrolled_down(
                        ss.viewing_key_scroll,
                        fs.viewing_key_scroll,
                    ))
                    &&& (ss.viewing_key is None ==> same_but_selection(ss, fs) && fs.selected
                        == next_selection(ss.selected, ss.keys@.len() as usize))
                })))
            }),
            // Browse, up key: mirror of the down key.
            !old(self).entering_filter && key == KeyPress::Char('k') ==> ({
                &&& eff is Idle
                &&& final(self).running == old(self).running
                &&& final(self).entering_filter == old(self).entering_filter
                &&& final(self).filter == old(self).filter
                &&& same_endpoint(old(self).active(), final(self).active())
                &&& (old(self).active().session is None ==> final(self).active() == old(self).active())
                &&& (old(self).active().session matches Option::Some(ss) ==> (final(self).active().session matches Option::Some(fs) && ({
                    &&& (ss.viewing_key is Some ==> same_but_view(ss, fs) && fs.viewing_key
                        == ss.viewing_key && scrolled_up(
                        ss.viewing_key_scroll,
                        fs.viewing_key_scroll,
                    ))
                    &&& (ss.viewing_key is None ==> same_but_selection(ss, fs) && fs.selected
                        == prev_selection(ss.selected, ss.keys@.len() as usize))
                })))
            }),
            // Browse, connect key: the state is untouched; the embedding
            // program opens the transport and calls `connect`.
            !old(self).entering_filter && key == KeyPress::Char('c') ==> (*final(self) == *old(self) && eff is Connect),
            // Browse, filter key: when connected, open the filter modal
            // seeded with the session's current pattern; ignored when
            // disconnected.
            !old(self).entering_filter && key == KeyPress::Char('f') ==> ({
                &&& eff is Idle
                &&& final(self).servers == old(self).servers
                &&& final(self).running == old(self).running
                &&& (old(self).active().session matches Option::Some(ss) ==> final(self).entering_filter && final(self).filter@ == ss.pattern@)
                &&& (old(self).active().session is None ==> final(self).entering_filter == old(self).entering_filter && final(self).filter == old(self).filter)
            }),
            // Browse, any other character: ignored.
            !old(self).entering_filter && (key matches KeyPress::Char(c) && c != 'q' && c != 'h'
                && c != 'l' && c != 'j' && c != 'k' && c != 'c' && c != 'f') ==> (*final(self)
                == *old(self) && eff is Idle),
            // Browse, confirm key: enter single-key view on the current
            // selection; a no-op without a selection or a connection.
            !old(self).entering_filter && key is Enter ==> ({
                &&& eff is Idle
                &&& final(self).running == old(self).running
                &&& final(self).entering_filter == old(self).entering_filter
                &&& final(self).filter == old(self).filter
                &&& same_endpoint(old(self).active(), final(self).active())
                &&& (old(self).active().session is None ==> final(self).active() == old(self).active())
                &&& (old(self).active().session matches Option::Some(ss) ==> (final(self).active().session matches Option::Some(fs) && ({
                    &&& (ss.selected matches Option::Some(i) ==> same_but_view(ss, fs) && (
                    fs.viewing_key matches Option::Some(k) && k == ss.keys@[i as int].name)
                        && fs.viewing_key_scroll == 0)
                    &&& (ss.selected is None ==> fs == ss)
                })))
            }),
            // Browse, cancel key: leave single-key view if one is open;
            // ignored when disconnected.
            !old(self).entering_filter && key is Esc ==> ({
                &&& eff is Idle
                &&& final(self).running == old(self).running
                &&& final(self).entering_filter == old(self).entering_filter
                &&& final(self).filter == old(self).filter
                &&& same_endpoint(old(self).active(), final(self).active())
                &&& (old(self).active().session is None ==> final(self).active() == old(self).active())
                &&& (old(self).active().session matches Option::Some(ss) ==> (final(self).active().session matches Option::Some(fs) && same_but_view(ss, fs)
                    && fs.viewing_key is None && fs.viewing_key_scroll == 0))
            }),
            // Browse, backspace: ignored.
            !old(self).entering_filter && key is Backspace ==> (*final(self) == *old(self) && eff
                is Idle),
    {
        if self.entering_filter {
            match key {
                KeyPress::Esc => {
                    self.entering_filter = false;
                    Effect::Idle
                },
                KeyPress::Backspace => {
                    self.filter.pop();
                    Effect::Idle
                },
                KeyPress::Char(c) => {
                    self.filter.push(c);
                    Effect::Idle
                },
                KeyPress::Enter => self.confirm_filter(),
            }
        } else {
            match key {
                KeyPress::Char(c) => {
                    if c == 'q' {
                        self.quit_key();
                        Effect::Idle
                    } else if c == 'h' {
                        self.prev_tab();
                        Effect::Idle
                    } else if c == 'l' {
                        self.next_tab();
                        Effect::Idle
                    } else if c == 'j' {
                        self.nav_down();
                        Effect::Idle
                    } else if c == 'k' {
                        self.nav_up();
                        Effect::Idle
                    } else if c == 'c' {
                        Effect::Connect
                    } else if c == 'f' {
                        self.seed_filter();
                        Effect::Idle
                    } else {
                        Effect::Idle
                    }
                },
                KeyPress::Enter => {
                    self.enter_view();
                    Effect::Idle
                },
                KeyPress::Esc => {
                    self.cancel_view();
                    Effect::Idle
                },
                KeyPress::Backspace => Effect::Idle,
            }
        }
    }
}

} // verus!
