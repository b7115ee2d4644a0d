//! Interactive browser core for a remote key-value store: incremental
//! cursor-based enumeration of a key space into a bounded local cache,
//! selection navigation, a tabbed endpoint registry, and a modal input
//! state machine. All network and terminal I/O is left to the embedding
//! program, which exchanges plain request/response values with this crate.
use vstd::prelude::*;

pub mod database;
pub mod input;
pub mod laws;
pub mod meta;
pub mod registry;
pub mod session;

verus! {

/// A pattern is held as a sequence of characters so that the filter
/// editor can be verified character by character.
pub fn chars_eq(a: &Vec<char>, b: &Vec<char>) -> (r: bool)
    ensures
        r == (a@ == b@),
{
    if a.len() != b.len() {
        proof {
            assert(a@ != b@);
        }
        return false;
    }
    let mut i: usize = 0;
    while i < a.len()
        invariant
            i <= a.len(),
            a@.len() == b@.len(),
            forall|j: int| 0 <= j < i ==> a@[j] == b@[j],
        decreases a.len() - i,
    {
        if a[i] != b[i] {
            return false;
        }
        i += 1;
    }
    proof {
        assert(a@ =~= b@);
    }
    true
}

/// A copy of a character sequence.
pub fn clone_chars(v: &Vec<char>) -> (r: Vec<char>)
    ensures
        r@ == v@,
{
    let mut r: Vec<char> = Vec::new();
    let mut i: usize = 0;
    while i < v.len()
        invariant
            i <= v@.len(),
            r@ == v@.take(i as int),
        decreases v@.len() - i,
    {
        r.push(v[i]);
        proof {
            assert(r@ =~= v@.take(i + 1));
        }
        i += 1;
    }
    proof {
        assert(r@ =~= v@);
    }
    r
}

} // verus!
