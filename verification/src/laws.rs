//! The laws the session state machine obeys, stated and proved over the
//! specification-level model (`merge_page`, the selection steppers and
//! the glob semantics).
use vstd::prelude::*;

use crate::session::{
    entry_of, has_name, merge_page, next_selection, prev_selection, unique_names, KeyEntry,
    PageKey,
};

verus! {

/// Glob semantics of the store's pattern-constrained enumeration: `*`
/// matches any run of characters, `?` any single character, and any
/// other character exactly itself.
pub open spec fn glob_matches(pattern: Seq<char>, name: Seq<char>) -> bool
    decreases pattern.len() + name.len(),
{
    if pattern.len() == 0 {
        name.len() == 0
    } else if pattern[0] == '*' {
        glob_matches(pattern.skip(1), name) || (name.len() > 0 && glob_matches(
            pattern,
            name.skip(1),
        ))
    } else {
        name.len() > 0 && (pattern[0] == '?' || pattern[0] == name[0]) && glob_matches(
            pattern.skip(1),
            name.skip(1),
        )
    }
}

/// Every cached key name matches the pattern.
pub open spec fn all_cached_match(pattern: Seq<char>, cache: Seq<KeyEntry>) -> bool {
    forall|i: int| 0 <= i < cache.len() ==> glob_matches(pattern, cache[i].name@)
}

/// Every key name of a page matches the pattern.
pub open spec fn all_page_match(pattern: Seq<char>, page: Seq<PageKey>) -> bool {
    forall|i: int| 0 <= i < page.len() ==> glob_matches(pattern, page[i].name@)
}

/// Law: folding in a page keeps cached key names unique — merging never
/// creates a duplicate, however often the store re-reports a key.
pub proof fn lemma_merge_page_unique(cache: Seq<KeyEntry>, page: Seq<PageKey>)
    requires
        unique_names(cache),
    ensures
        unique_names(merge_page(cache, page)),
    decreases page.len(),
{
    if page.len() == 0 {
    } else {
        let grown = if has_name(cache, page[0].name@) {
            cache
        } else {
            cache.push(entry_of(page[0]))
        };
        if !has_name(cache, page[0].name@) {
            assert forall|i: int, j: int| 0 <= i < j < grown.len() implies grown[i].name@
                != grown[j].name@ by {
                if j < cache.len() {
                } else {
                    assert(grown[j].name@ == page[0].name@);
                    assert(grown[i] == cache[i]);
                }
            }
        }
        lemma_merge_page_unique(grown, page.skip(1));
    }
}

/// Law: the eventual cache does not depend on how the store split the
/// keys into pages — folding in `first` then `second` gives exactly the
/// cache that folding in the concatenated batch gives.
pub proof fn lemma_merge_page_split(cache: Seq<KeyEntry>, first: Seq<PageKey>, second: Seq<PageKey>)
    ensures
        merge_page(merge_page(cache, first), second) == merge_page(cache, first + second),
    decreases first.len(),
{
    if first.len() == 0 {
        assert(first + second =~= second);
    } else {
        assert((first + second)[0] == first[0]);
        assert((first + second).skip(1) =~= first.skip(1) + second);
        let grown = if has_name(cache, first[0].name@) {
            cache
        } else {
            cache.push(entry_of(first[0]))
        };
        lemma_merge_page_split(grown, first.skip(1), second);
    }
}

/// The set of key names a cache holds.
pub open spec fn cache_names(cache: Seq<KeyEntry>) -> Set<Seq<char>> {
    Set::new(|n: Seq<char>| has_name(cache, n))
}

/// The set of key names a page reports.
pub open spec fn page_names(page: Seq<PageKey>) -> Set<Seq<char>> {
    Set::new(|n: Seq<char>| exists|i: int| 0 <= i < page.len() && page[i].name@ == n)
}

/// Law: folding in a page adds exactly the page's key names to the
/// cache — nothing is lost, nothing else appears, duplicates collapse.
/// Once the store has reported every key matching the pattern across
/// some pages, the cache therefore holds exactly that key set.
pub proof fn lemma_merge_page_names(cache: Seq<KeyEntry>, page: Seq<PageKey>)
    ensures
        cache_names(merge_page(cache, page)) =~= cache_names(cache) + page_names(page),
    decreases page.len(),
{
    if page.len() == 0 {
        assert(page_names(page) =~= Set::<Seq<char>>::empty());
    } else {
        let n0 = page[0].name@;
        let grown = if has_name(cache, n0) {
            cache
        } else {
            cache.push(entry_of(page[0]))
        };
        assert(cache_names(grown) =~= cache_names(cache).insert(n0)) by {
            assert(grown[grown.len() - 1].name@ == n0 || has_name(cache, n0));
            assert(has_name(grown, n0));
            assert forall|n: Seq<char>| has_name(grown, n) implies has_name(cache, n) || n
                == n0 by {
                let i = choose|i: int| 0 <= i < grown.len() && grown[i].name@ == n;
                if i < cache.len() {
                    assert(has_name(cache, n));
                }
            }
            assert forall|n: Seq<char>| has_name(cache, n) implies has_name(grown, n) by {
                let i = choose|i: int| 0 <= i < cache.len() && cache[i].name@ == n;
                assert(grown[i].name@ == n);
            }
        }
        lemma_merge_page_names(grown, page.skip(1));
        assert(page_names(page) =~= page_names(page.skip(1)).insert(n0)) by {
            assert(page[0].name@ == n0);
            assert forall|n: Seq<char>| page_names(page).contains(n) implies page_names(
                page.skip(1),
            ).insert(n0).contains(n) by {
                let i = choose|i: int| 0 <= i < page.len() && page[i].name@ == n;
                if i > 0 {
                    assert(page.skip(1)[i - 1].name@ == n);
                }
            }
            assert forall|n: Seq<char>| page_names(page.skip(1)).insert(n0).contains(
                n,
            ) implies page_names(page).contains(n) by {
                if n == n0 {
                    assert(page[0].name@ == n);
                } else {
                    let i = choose|i: int| 0 <= i < page.skip(1).len() && page.skip(1)[i].name@
                        == n;
                    assert(page[i + 1].name@ == n);
                }
            }
        }
        assert(cache_names(cache).insert(n0) + page_names(page.skip(1)) =~= cache_names(cache)
            + page_names(page));
    }
}

/// Law: a cache whose keys all match the pattern still matches after a
/// page of matching keys is folded in — so however many pages a scan
/// pulls, no key that fails the pattern ever enters the cache.
pub proof fn lemma_merge_page_matching(
    pattern: Seq<char>,
    cache: Seq<KeyEntry>,
    page: Seq<PageKey>,
)
    requires
        all_cached_match(pattern, cache),
        all_page_match(pattern, page),
    ensures
        all_cached_match(pattern, merge_page(cache, page)),
    decreases page.len(),
{
    if page.len() == 0 {
    } else {
        let grown = if has_name(cache, page[0].name@) {
            cache
        } else {
            cache.push(entry_of(page[0]))
        };
        assert(glob_matches(pattern, page[0].name@));
        assert(all_cached_match(pattern, grown)) by {
            assert forall|i: int| 0 <= i < grown.len() implies glob_matches(
                pattern,
                grown[i].name@,
            ) by {
                if i < cache.len() {
                } else {
                    assert(grown[i].name@ == page[0].name@);
                }
            }
        }
        assert(all_page_match(pattern, page.skip(1))) by {
            assert forall|i: int| 0 <= i < page.skip(1).len() implies glob_matches(
                pattern,
                page.skip(1)[i].name@,
            ) by {
                assert(page.skip(1)[i] == page[i + 1]);
            }
        }
        lemma_merge_page_matching(pattern, grown, page.skip(1));
    }
}

/// Law: from any valid selection over a non-empty cache, stepping the
/// selection forward then backward — or backward then forward — returns
/// to the original selection.
pub proof fn lemma_selection_round_trip(i: usize, len: usize)
    requires
        i < len,
    ensures
        prev_selection(next_selection(Option::Some(i), len), len) == Option::Some(i),
        next_selection(prev_selection(Option::Some(i), len), len) == Option::Some(i),
{
}

/// Law: on an empty cache the selection steppers leave the selection
/// `None`, whatever it was.
pub proof fn lemma_empty_cache_selection(sel: Option<usize>)
    ensures
        next_selection(sel, 0) is None,
        prev_selection(sel, 0) is None,
{
}

fn glob_match_at(pattern: &Vec<char>, name: &Vec<char>, pi: usize, ni: usize) -> (r: bool)
    requires
        pi <= pattern@.len(),
        ni <= name@.len(),
    ensures
        r == glob_matches(pattern@.skip(pi as int), name@.skip(ni as int)),
    decreases pattern@.len() - pi + name@.len() - ni,
{
    proof {
        assert(pattern@.skip(pi as int).len() == pattern@.len() - pi);
        assert(name@.skip(ni as int).len() == name@.len() - ni);
        if pi < pattern@.len() {
            assert(pattern@.skip(pi as int)[0] == pattern@[pi as int]);
            assert(pattern@.skip(pi as int).skip(1) =~= pattern@.skip(pi as int + 1));
        }
        if ni < name@.len() {
            assert(name@.skip(ni as int)[0] == name@[ni as int]);
            assert(name@.skip(ni as int).skip(1) =~= name@.skip(ni as int + 1));
        }
    }
    if pi == pattern.len() {
        return ni == name.len();
    }
    let pc = pattern[pi];
    if pc == '*' {
        if glob_match_at(pattern, name, pi + 1, ni) {
            return true;
        }
        if ni < name.len() {
            return glob_match_at(pattern, name, pi, ni + 1);
        }
        return false;
    }
    if ni == name.len() {
        return false;
    }
    let nc = name[ni];
    if pc == '?' || pc == nc {
        return glob_match_at(pattern, name, pi + 1, ni + 1);
    }
    false
}

/// Whether a key name matches a glob pattern, exactly as the
/// specification-level `glob_matches` defines it — the semantics the
/// store applies server-side during enumeration.
pub fn glob_match(pattern: &Vec<char>, name: &Vec<char>) -> (r: bool)
    ensures
        r == glob_matches(pattern@, name@),
{
    let r = glob_match_at(pattern, name, 0, 0);
    proof {
        assert(pattern@.skip(0) =~= pattern@);
        assert(name@.skip(0) =~= name@);
    }
    r
}

} // verus!
