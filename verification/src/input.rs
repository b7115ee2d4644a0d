//! The plain event and key types the state machine consumes. The
//! embedding program translates terminal events into these values; the
//! core never sees the terminal itself.
use vstd::prelude::*;

verus! {

/// What the producer side of the event loop pushes to the consumer: a
/// piece of input, or the periodic tick that drives a render cycle.
pub enum Event<I> {
    Input(I),
    Tick,
}

/// A key press, reduced to what the modal state machine interprets.
/// Keys outside this alphabet are ignored before they reach the core.
#[derive(Clone, Copy, PartialEq, Eq, Structural, Debug)]
pub enum KeyPress {
    /// A printable character (`q`, `h`, `l`, `j`, `k`, `c`, `f`, or
    /// text typed into the filter).
    Char(char),
    Enter,
    Backspace,
    Esc,
}

} // verus!
