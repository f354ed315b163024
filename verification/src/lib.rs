//! Core of a terminal pomodoro timer: a pure state machine that advances a
//! work/break cycle on clock ticks and key presses, records completed
//! sessions, and answers progress queries for a renderer.
//!
//! The state machine never performs I/O itself. Persistence is requested
//! through an explicit effect value returned by `advance`/`tick`, and the
//! event producers (keyboard reader, ticker), the database, and the terminal
//! renderer live outside this crate and exchange plain values with it.
use vstd::prelude::*;

pub mod config;
pub mod events;
pub mod session;
pub mod state;

verus! {

/// Milliseconds in one minute.
pub const MS_PER_MIN: u64 = 60000;

} // verus!
