//! The events the state machine consumes. Two independent producers (a
//! keyboard reader and a fixed-interval ticker) feed one ordered stream of
//! these values to the single consumer that owns the state machine; the
//! threads and the channel live outside this crate and hand over plain
//! `Event` values.
use vstd::prelude::*;

verus! {

/// A decoded key press, as far as the state machine cares: a printable
/// character, one of the navigation keys it reacts to, or anything else
/// (consumed silently).
#[derive(Clone, Copy, PartialEq, Eq, Debug)]
pub enum Key {
    Char(char),
    BackTab,
    Up,
    Down,
    Other,
}

/// One event of the merged stream: a key press, or a clock tick carrying
/// the elapsed interval in milliseconds.
#[derive(Clone, Copy, PartialEq, Eq, Debug)]
pub enum Event {
    Input(Key),
    Tick(u64),
}

} // verus!
