//! One endpoint's live browsing session: cursor-based enumeration of the
//! key space into a local cache, selection navigation over that cache,
//! and the single-key view sub-mode.
//!
//! The session never touches the network itself. `scan` and `next`
//! decide whether an enumeration call is due and hand back a
//! [`PageRequest`]; the embedding program performs the call and reports
//! the outcome through [`RedisSession::apply_page`] or
//! [`RedisSession::fetch_failed`]. The `loading` flag guards against
//! overlapping page fetches while a request is outstanding.
use vstd::prelude::*;

use crate::chars_eq;
use crate::clone_chars;
use crate::meta::KeyMetadata;

verus! {

/// Pagination state. The store protocol overloads cursor value `0` as
/// both "start a new enumeration" and "enumeration finished"; this
/// tri-state keeps the two apart, so `done` is false on a session that
/// has not fetched anything yet.
#[derive(Clone, Copy, PartialEq, Eq, Structural, Debug)]
pub enum ScanCursor {
    /// No page fetched since the last reset.
    NotStarted,
    /// The resume token the store returned for the next page.
    InProgress(u64),
    /// The store reported the enumeration finished.
    Complete,
}

impl ScanCursor {
    /// The cursor argument for the next enumeration call: the resume
    /// token, or the store's start sentinel `0`.
    pub open spec fn spec_arg(self) -> u64 {
        match self {
            ScanCursor::NotStarted => 0,
            ScanCursor::InProgress(c) => c,
            ScanCursor::Complete => 0,
        }
    }

    pub fn arg(&self) -> (r: u64)
        ensures
            r == self.spec_arg(),
    {
        match self {
            ScanCursor::NotStarted => 0,
            ScanCursor::InProgress(c) => *c,
            ScanCursor::Complete => 0,
        }
    }
}

/// One enumeration call the embedding program must perform: request one
/// page of key names matching `pattern`, resuming at `cursor`.
pub struct PageRequest {
    pub cursor: u64,
    pub pattern: Vec<char>,
}

/// One key name of a fetched page, with the time to live discovered for
/// it (absent when the key has no expiry or the lookup failed — a
/// missing TTL is recorded as unknown, never an error).
pub struct PageKey {
    pub name: String,
    pub ttl: Option<u64>,
}

/// One cached key with its metadata.
pub struct KeyEntry {
    pub name: String,
    pub meta: KeyMetadata,
}

/// Whether some cached entry carries this key name.
pub open spec fn has_name(cache: Seq<KeyEntry>, name: Seq<char>) -> bool {
    exists|i: int| 0 <= i < cache.len() && cache[i].name@ == name
}

/// No two cached entries carry the same key name.
pub open spec fn unique_names(cache: Seq<KeyEntry>) -> bool {
    forall|i: int, j: int| 0 <= i < j < cache.len() ==> cache[i].name@ != cache[j].name@
}

/// The cache entry a freshly discovered key gets: only the TTL is
/// known; type and size stay unknown.
pub open spec fn entry_of(k: PageKey) -> KeyEntry {
    KeyEntry { name: k.name, meta: KeyMetadata { type_tag: Option::None, ttl: k.ttl, size: Option::None } }
}

/// The cache after one page is folded in: keys not previously known are
/// appended in page order; keys already cached are left untouched, so
/// the cache grows monotonically until a pattern change.
pub open spec fn merge_page(cache: Seq<KeyEntry>, page: Seq<PageKey>) -> Seq<KeyEntry>
    decreases page.len(),
{
    if page.len() == 0 {
        cache
    } else {
        let grown = if has_name(cache, page[0].name@) {
            cache
        } else {
            cache.push(entry_of(page[0]))
        };
        merge_page(grown, page.skip(1))
    }
}

/// The selection one step forward: wraps from the last entry to the
/// first, starts at the first when nothing is selected, and stays
/// `None` on an empty cache.
pub open spec fn next_selection(sel: Option<usize>, len: usize) -> Option<usize> {
    if len == 0 {
        Option::None
    } else {
        match sel {
            Option::None => Option::Some(0usize),
            Option::Some(i) => if i + 1 >= len {
                Option::Some(0usize)
            } else {
                Option::Some((i + 1) as usize)
            },
        }
    }
}

/// The selection one step backward: wraps from the first entry to the
/// last, starts at the first when nothing is selected, and stays
/// `None` on an empty cache.
pub open spec fn prev_selection(sel: Option<usize>, len: usize) -> Option<usize> {
    if len == 0 {
        Option::None
    } else {
        match sel {
            Option::None => Option::Some(0usize),
            Option::Some(i) => if i == 0 {
                Option::Some((len - 1) as usize)
            } else {
                Option::Some((i - 1) as usize)
            },
        }
    }
}

/// How `scan` transforms a session: a differing pattern invalidates the
/// whole cache and resets the cursor to the start; in all cases a page
/// fetch is then requested unless one is already in flight.
pub open spec fn scan_step(
    pre: RedisSession,
    post: RedisSession,
    pattern: Seq<char>,
    r: Option<PageRequest>,
) -> bool {
    &&& post.pattern@ == pattern
    &&& post.viewing_key == pre.viewing_key
    &&& post.viewing_key_scroll == pre.viewing_key_scroll
    &&& (pattern != pre.pattern@ ==> post.keys@ == Seq::<KeyEntry>::empty() && post.selected
        is None && post.cursor is NotStarted)
    &&& (pattern == pre.pattern@ ==> post.keys == pre.keys && post.selected == pre.selected
        && post.cursor == pre.cursor)
    &&& post.loading
    &&& (pre.loading ==> r is None)
    &&& (!pre.loading ==> (r matches Option::Some(req) && req.cursor == post.cursor.spec_arg()
        && req.pattern@ == pattern))
}

/// A browsing session against one endpoint. The transport connection
/// itself lives with the embedding program; the session only tracks the
/// enumeration and view state.
pub struct RedisSession {
    /// The glob pattern the enumeration is constrained by.
    pub pattern: Vec<char>,
    /// Pagination state of the current enumeration.
    pub cursor: ScanCursor,
    /// The local key cache, unique by name, in discovery order. The
    /// discovery order is stable: folding in further pages never
    /// reorders entries already cached.
    pub keys: Vec<KeyEntry>,
    /// Selection index into `keys`; `None` exactly while nothing is
    /// selected, never an out-of-range index.
    pub selected: Option<usize>,
    /// The key whose value is shown in single-key view, when that
    /// sub-mode is active.
    pub viewing_key: Option<String>,
    /// Scroll offset of the single-key view.
    pub viewing_key_scroll: u16,
    /// True while a page fetch is outstanding; guards against
    /// overlapping pagination calls on the same connection.
    pub loading: bool,
}

impl RedisSession {
    /// Validity: cached names are unique and the selection, when
    /// present, is in range.
    pub open spec fn wf(self) -> bool {
        &&& unique_names(self.keys@)
        &&& (self.selected matches Option::Some(i) ==> i < self.keys@.len())
    }

    pub fn new(pattern: Vec<char>) -> (s: RedisSession)
        ensures
            s.wf(),
            s.pattern == pattern,
            s.cursor is NotStarted,
            s.keys@ == Seq::<KeyEntry>::empty(),
            s.selected is None,
            s.viewing_key is None,
            s.viewing_key_scroll == 0,
            !s.loading,
    {
        let s = RedisSession {
            pattern,
            cursor: ScanCursor::NotStarted,
            keys: Vec::new(),
            selected: Option::None,
            viewing_key: Option::None,
            viewing_key_scroll: 0,
            loading: false,
        };
        proof {
            assert(s.keys@ =~= Seq::<KeyEntry>::empty());
        }
        s
    }

    /// Requests one page fetch unless one is already in flight.
    fn begin_fetch(&mut self) -> (r: Option<PageRequest>)
        ensures
            final(self).pattern == old(self).pattern,
            final(self).cursor == old(self).cursor,
            final(self).keys == old(self).keys,
            final(self).selected == old(self).selected,
            final(self).viewing_key == old(self).viewing_key,
            final(self).viewing_key_scroll == old(self).viewing_key_scroll,
            final(self).loading,
            old(self).loading ==> r is None,
            !old(self).loading ==> (r matches Option::Some(req) && req.cursor == old(
                self).cursor.spec_arg() && req.pattern@ == old(self).pattern@),
    {
        if self.loading {
            return Option::None;
        }
        self.loading = true;
        let pat = clone_chars(&self.pattern);
        Option::Some(PageRequest { cursor: self.cursor.arg(), pattern: pat })
    }

    /// Re-scan under `pattern`. A pattern differing from the current one
    /// clears the cache (full invalidation) and resets the cursor to the
    /// start sentinel; in all cases one page fetch is then requested,
    /// unless a fetch is already in flight (then the call is a no-op
    /// besides the reset, and no new request is issued).
    pub fn scan(&mut self, pattern: Vec<char>) -> (r: Option<PageRequest>)
        requires
            old(self).wf(),
        ensures
            final(self).wf(),
            scan_step(*old(self), *final(self), pattern@, r),
    {
        let changed = !chars_eq(&pattern, &self.pattern);
        self.pattern = pattern;
        if changed {
            self.keys = Vec::new();
            self.cursor = ScanCursor::NotStarted;
            self.selected = Option::None;
            proof {
                assert(self.keys@ =~= Seq::<KeyEntry>::empty());
            }
        }
        self.begin_fetch()
    }

    /// Advance the enumeration by one page: requests a fetch unless the
    /// enumeration is already complete (then it is a no-op) or a fetch
    /// is already in flight (then no new request is issued and the
    /// state is unchanged).
    pub fn next(&mut self) -> (r: Option<PageRequest>)
        requires
            old(self).wf(),
        ensures
            final(self).wf(),
            old(self).cursor is Complete ==> *final(self) == *old(self) && r is None,
            old(self).loading ==> *final(self) == *old(self) && r is None,
            !(old(self).cursor is Complete) && !old(self).loading ==> {
                &&& final(self).pattern == old(self).pattern
                &&& final(self).cursor == old(self).cursor
                &&& final(self).keys == old(self).keys
                &&& final(self).selected == old(self).selected
                &&& final(self).viewing_key == old(self).viewing_key
                &&& final(self).viewing_key_scroll == old(self).viewing_key_scroll
                &&& final(self).loading
                &&& r matches Option::Some(req) && req.cursor == old(self).cursor.spec_arg()
                    && req.pattern@ == old(self).pattern@
            },
    {
        match self.cursor {
            ScanCursor::Complete => Option::None,
            _ => self.begin_fetch(),
        }
    }

    /// Whether another page fetch is worth requesting to fill `target`
    /// visible rows: the enumeration is not finished, fewer keys are
    /// cached than `target`, and no fetch is already in flight.
    pub fn needs_more(&self, target: usize) -> (r: bool)
        ensures
            r == (!(self.cursor is Complete) && self.keys@.len() < target && !self.loading),
    {
        let complete = match self.cursor {
            ScanCursor::Complete => true,
            _ => false,
        };
        !complete && self.keys.len() < target && !self.loading
    }

    /// Fold the outcome of the requested page fetch into the session:
    /// stores the new cursor (`0` is the store's "enumeration finished"
    /// sentinel) and appends every previously unknown key, in page
    /// order. Keys already cached are left untouched.
    pub fn apply_page(&mut self, new_cursor: u64, page: Vec<PageKey>)
        requires
            old(self).wf(),
            old(self).loading,
        ensures
            final(self).wf(),
            !final(self).loading,
            final(self).pattern == old(self).pattern,
            final(self).selected == old(self).selected,
            final(self).viewing_key == old(self).viewing_key,
            final(self).viewing_key_scroll == old(self).viewing_key_scroll,
            final(self).cursor == (if new_cursor == 0 {
                ScanCursor::Complete
            } else {
                ScanCursor::InProgress(new_cursor)
            }),
            final(self).keys@ == merge_page(old(self).keys@, page@),
    {
        self.loading = false;
        self.cursor = if new_cursor == 0 {
            ScanCursor::Complete
        } else {
            ScanCursor::InProgress(new_cursor)
        };
        let ghost orig = self.keys@;
        let ghost pattern0 = self.pattern;
        let ghost cursor0 = self.cursor;
        let ghost selected0 = self.selected;
        let ghost viewing0 = self.viewing_key;
        let ghost scroll0 = self.viewing_key_scroll;
        let mut idx: usize = 0;
        proof {
            assert(page@.skip(0) =~= page@);
        }
        while idx < page.len()
            invariant
                idx <= page@.len(),
                unique_names(self.keys@),
                self.keys@.len() >= orig.len(),
                self.pattern == pattern0,
                self.cursor == cursor0,
                self.selected == selected0,
                self.viewing_key == viewing0,
                self.viewing_key_scroll == scroll0,
                !self.loading,
                selected0 matches Option::Some(i) ==> i < orig.len(),
                merge_page(orig, page@) == merge_page(self.keys@, page@.skip(idx as int)),
            decreases page@.len() - idx,
        {
            let ghost pre = self.keys@;
            let k = &page[idx];
            proof {
                assert(page@.skip(idx as int)[0] == page@[idx as int]);
                assert(page@.skip(idx as int).skip(1) =~= page@.skip(idx as int + 1));
            }
            if !contains_name(&self.keys, &k.name) {
                let entry = KeyEntry {
                    name: k.name.clone(),
                    meta: KeyMetadata::new(Option::None, k.ttl, Option::None),
                };
                proof {
                    assert(entry == entry_of(page@[idx as int]));
                }
                self.keys.push(entry);
                proof {
                    assert(forall|i: int|
                        0 <= i < pre.len() ==> pre[i].name@ != page@[idx as int].name@);
                    assert(unique_names(self.keys@));
                }
            }
            idx += 1;
        }
        proof {
            assert(page@.skip(page@.len() as int) =~= Seq::<PageKey>::empty());
            assert(merge_page(self.keys@, Seq::<PageKey>::empty()) == self.keys@);
        }
    }

    /// Abandon the outstanding page fetch after a transport or protocol
    /// error: the cursor and cache keep their pre-failure state, so a
    /// retry can resume where the failed call left off.
    pub fn fetch_failed(&mut self)
        requires
            old(self).wf(),
        ensures
            final(self).wf(),
            !final(self).loading,
            final(self).pattern == old(self).pattern,
            final(self).cursor == old(self).cursor,
            final(self).keys == old(self).keys,
            final(self).selected == old(self).selected,
            final(self).viewing_key == old(self).viewing_key,
            final(self).viewing_key_scroll == old(self).viewing_key_scroll,
    {
        self.loading = false;
    }

    /// The cached keys with their metadata, in discovery order.
    pub fn iter_keys(&self) -> (r: &Vec<KeyEntry>)
        ensures
            r == &self.keys,
    {
        &self.keys
    }

    /// How many keys are cached.
    pub fn count(&self) -> (r: usize)
        ensures
            r == self.keys@.len(),
    {
        self.keys.len()
    }

    /// True exactly when the store reported the enumeration finished.
    /// False on a freshly reset session that has not fetched yet.
    pub fn done(&self) -> (r: bool)
        ensures
            r == (self.cursor is Complete),
    {
        match self.cursor {
            ScanCursor::Complete => true,
            _ => false,
        }
    }

    /// Move the selection one entry forward, wrapping from the last
    /// entry to the first. On an empty cache the selection stays
    /// `None`.
    pub fn select_next(&mut self)
        requires
            old(self).wf(),
        ensures
            final(self).wf(),
            final(self).selected == next_selection(old(self).selected, old(self).keys@.len() as usize),
            final(self).pattern == old(self).pattern,
            final(self).cursor == old(self).cursor,
            final(self).keys == old(self).keys,
            final(self).viewing_key == old(self).viewing_key,
            final(self).viewing_key_scroll == old(self).viewing_key_scroll,
            final(self).loading == old(self).loading,
    {
        if self.keys.len() == 0 {
            self.selected = Option::None;
            return;
        }
        let i = match self.selected {
            Option::None => 0,
            Option::Some(i) => if i + 1 >= self.keys.len() {
                0
            } else {
                i + 1
            },
        };
        self.selected = Option::Some(i);
    }

    /// Move the selection one entry backward, wrapping from the first
    /// entry to the last. On an empty cache the selection stays
    /// `None`.
    pub fn select_prev(&mut self)
        requires
            old(self).wf(),
        ensures
            final(self).wf(),
            final(self).selected == prev_selection(old(self).selected, old(self).keys@.len() as usize),
            final(self).pattern == old(self).pattern,
            final(self).cursor == old(self).cursor,
            final(self).keys == old(self).keys,
            final(self).viewing_key == old(self).viewing_key,
            final(self).viewing_key_scroll == old(self).viewing_key_scroll,
            final(self).loading == old(self).loading,
    {
        if self.keys.len() == 0 {
            self.selected = Option::None;
            return;
        }
        let i = match self.selected {
            Option::None => 0,
            Option::Some(i) => if i == 0 {
                self.keys.len() - 1
            } else {
                i - 1
            },
        };
        self.selected = Option::Some(i);
    }

    /// Enter single-key view on the currently selected key: captures the
    /// key name and resets the scroll. A no-op when nothing is selected.
    pub fn view_selected(&mut self)
        requires
            old(self).wf(),
        ensures
            final(self).wf(),
            old(self).selected matches Option::Some(i) ==> (final(self).viewing_key
                matches Option::Some(k) && k == old(self).keys@[i as int].name && final(self).viewing_key_scroll == 0),
            old(self).selected is None ==> *final(self) == *old(self),
            final(self).pattern == old(self).pattern,
            final(self).cursor == old(self).cursor,
            final(self).keys == old(self).keys,
            final(self).selected == old(self).selected,
            final(self).loading == old(self).loading,
    {
        match self.selected {
            Option::Some(i) => {
                self.viewing_key = Option::Some(self.keys[i].name.clone());
                self.viewing_key_scroll = 0;
            },
            Option::None => {},
        }
    }

    /// Leave single-key view: clears the viewed key and the scroll.
    pub fn stop_viewing(&mut self)
        requires
            old(self).wf(),
        ensures
            final(self).wf(),
            final(self).viewing_key is None,
            final(self).viewing_key_scroll == 0,
            final(self).pattern == old(self).pattern,
            final(self).cursor == old(self).cursor,
            final(self).keys == old(self).keys,
            final(self).selected == old(self).selected,
            final(self).loading == old(self).loading,
    {
        self.viewing_key = Option::None;
        self.viewing_key_scroll = 0;
    }

    /// Scroll the single-key view down one row, saturating at the
    /// largest offset.
    pub fn scroll_down(&mut self)
        requires
            old(self).wf(),
        ensures
            final(self).wf(),
            old(self).viewing_key_scroll < u16::MAX ==> final(self).viewing_key_scroll == old(self).viewing_key_scroll + 1,
            old(self).viewing_key_scroll == u16::MAX ==> final(self).viewing_key_scroll
                == u16::MAX,
            final(self).pattern == old(self).pattern,
            final(self).cursor == old(self).cursor,
            final(self).keys == old(self).keys,
            final(self).selected == old(self).selected,
            final(self).viewing_key == old(self).viewing_key,
            final(self).loading == old(self).loading,
    {
        if self.viewing_key_scroll < u16::MAX {
            self.viewing_key_scroll = self.viewing_key_scroll + 1;
        }
    }

    /// Scroll the single-key view up one row, saturating at zero (the
    /// offset never goes negative).
    pub fn scroll_up(&mut self)
        requires
            old(self).wf(),
        ensures
            final(self).wf(),
            old(self).viewing_key_scroll > 0 ==> final(self).viewing_key_scroll == old(self).viewing_key_scroll - 1,
            old(self).viewing_key_scroll == 0 ==> final(self).viewing_key_scroll == 0,
            final(self).pattern == old(self).pattern,
            final(self).cursor == old(self).cursor,
            final(self).keys == old(self).keys,
            final(self).selected == old(self).selected,
            final(self).viewing_key == old(self).viewing_key,
            final(self).loading == old(self).loading,
    {
        if self.viewing_key_scroll > 0 {
            self.viewing_key_scroll = self.viewing_key_scroll - 1;
        }
    }
}

/// Whether the cache already holds an entry named `name`.
pub fn contains_name(keys: &Vec<KeyEntry>, name: &String) -> (r: bool)
    ensures
        r == has_name(keys@, name@),
{
    let mut i: usize = 0;
    while i < keys.len()
        invariant
            i <= keys@.len(),
            forall|j: int| 0 <= j < i ==> keys@[j].name@ != name@,
        decreases keys@.len() - i,
    {
        if keys[i].name == *name {
            return true;
        }
        i += 1;
    }
    false
}

} // verus!
