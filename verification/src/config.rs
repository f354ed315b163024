//! Timer configuration: durations for work and break phases and the two
//! control keys. The raw configuration (`CfgDTO`) carries durations in
//! minutes as they are read from a config file; `Cfg` carries them in
//! milliseconds, the unit in which ticks arrive.
use vstd::prelude::*;
use vstd::string::StringExecFns;

use crate::MS_PER_MIN;

verus! {

/// Configuration as it is read from a config file: durations in minutes,
/// and the path of the session database (used only by the surrounding
/// program, carried here so defaults live in one place).
pub struct CfgDTO {
    pub working: u64,
    pub short_break: u64,
    pub long_break: u64,
    pub db_path: String,
}

/// Configuration the state machine runs on: durations in milliseconds,
/// plus the pause and quit keys.
pub struct Cfg {
    pub working: u64,
    pub short_break: u64,
    pub long_break: u64,
    pub pause_key: char,
    pub quit_key: char,
}

impl Cfg {
    /// All phase durations are positive. Zero durations are a configuration
    /// error caught by the loader before the state machine ever runs.
    pub open spec fn wf(&self) -> bool {
        &&& 0 < self.working
        &&& 0 < self.short_break
        &&& 0 < self.long_break
    }
}

impl Default for CfgDTO {
    /// 25 minutes of work, 5-minute short breaks, 10-minute long breaks.
    fn default() -> (d: CfgDTO)
        ensures
            d.working == 25,
            d.short_break == 5,
            d.long_break == 10,
            d.db_path@ == "pomodorust.db"@,
            d.wf(),
    {
        CfgDTO {
            working: 25,
            short_break: 5,
            long_break: 10,
            db_path: String::from_str("pomodorust.db"),
        }
    }
}

impl CfgDTO {
    /// Durations are positive and small enough that converting minutes to
    /// milliseconds cannot overflow.
    pub open spec fn wf(&self) -> bool {
        &&& 0 < self.working
        &&& 0 < self.short_break
        &&& 0 < self.long_break
        &&& self.working * MS_PER_MIN <= u64::MAX
        &&& self.short_break * MS_PER_MIN <= u64::MAX
        &&& self.long_break * MS_PER_MIN <= u64::MAX
    }

    /// Converts minute durations into the millisecond configuration the
    /// state machine runs on. `p` pauses and `q` quits.
    pub fn to_cfg(&self) -> (cfg: Cfg)
        requires
            self.wf(),
        ensures
            cfg.working == self.working * MS_PER_MIN,
            cfg.short_break == self.short_break * MS_PER_MIN,
            cfg.long_break == self.long_break * MS_PER_MIN,
            cfg.pause_key == 'p',
            cfg.quit_key == 'q',
            cfg.wf(),
    {
        Cfg {
            working: self.working * MS_PER_MIN,
            short_break: self.short_break * MS_PER_MIN,
            long_break: self.long_break * MS_PER_MIN,
            pause_key: 'p',
            quit_key: 'q',
        }
    }
}

} // verus!
