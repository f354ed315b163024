//! Completed-session records. A `Statistic` is what the state machine asks
//! its persistence collaborator to store when a work phase completes; a
//! `Pomodoro` is a stored record read back at startup, with its creation
//! time as plain seconds since the Unix epoch.
use vstd::prelude::*;

verus! {

/// A new completed work session, ready to be stored: its length in minutes
/// and the not-yet-assigned ticket and note texts.
#[derive(Clone, PartialEq, Debug)]
pub struct Statistic {
    pub duration: i64,
    pub ticket_id: Option<String>,
    pub note: Option<String>,
}

/// A stored session record: id and creation time are assigned by the
/// store; `created_at` is seconds since the Unix epoch.
#[derive(Clone, PartialEq, Debug)]
pub struct Pomodoro {
    pub id: i32,
    pub created_at: i64,
    pub duration: i64,
    pub ticket_id: Option<String>,
    pub note: Option<String>,
}

impl Statistic {
    /// A fresh record of `duration` minutes, with no ticket or note yet.
    pub fn new(duration: i64) -> (s: Statistic)
        ensures
            s.duration == duration,
            s.ticket_id is None,
            s.note is None,
    {
        Statistic { duration, ticket_id: None, note: None }
    }
}

} // verus!
