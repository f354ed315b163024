//! The timer state machine. `App` owns the elapsed time of the current
//! phase, the completion counter, the list of stored sessions, and the UI
//! selection; it is advanced exclusively by discrete tick and key events.
//! Each transition is specified against the mathematical model `Timer` and
//! the spec transition functions below, so that the laws of the cycle
//! (elapsed time stays below the phase target, every fourth completion
//! selects the long break, pause/resume is lossless) are stated and proved
//! here rather than tested only by example.
use vstd::prelude::*;
use vstd::string::StringExecFns;

use crate::MS_PER_MIN;
use crate::config::Cfg;
use crate::events::{Event, Key};
use crate::session::Pomodoro;

verus! {

/// The phase the timer is in. `Paused` remembers what to resume into:
/// `None` resumes work, `Some(target)` resumes a break against `target`
/// milliseconds, so pausing during a break never loses the break.
#[derive(Clone, Copy, PartialEq, Eq, Debug)]
pub enum State {
    Running,
    NextBreak(u64),
    Paused(Option<u64>),
}

/// What a transition asks of the caller: nothing, durably record a
/// completed work session of the given length in minutes, or stop the
/// event loop. The state machine itself never performs the side effect.
#[derive(Clone, Copy, PartialEq, Eq, Debug)]
pub enum Effect {
    Nothing,
    CompletedWorkSession(u64),
    Quit,
}

/// The mathematical model of the timer proper: elapsed work and break
/// milliseconds, the completion counter, and the phase. The contracts of
/// `tick`, `key_handler` and `advance` all speak of this model.
pub struct Timer {
    pub work_ms: u64,
    pub break_ms: u64,
    pub completed: u64,
    pub st: State,
}

/// The break target owed after the `completed`-th work completion:
/// every fourth completion earns the long break.
pub open spec fn break_target(cfg: Cfg, completed: u64) -> u64 {
    if completed % 4 == 0 {
        cfg.long_break
    } else {
        cfg.short_break
    }
}

/// The timer after one tick of `d` milliseconds. While running, elapsed
/// work time grows until it reaches the work target; reaching it completes
/// a session, resets the clock and starts the owed break. While on a break,
/// elapsed break time grows until the break target, then work resumes.
/// While paused, ticks are dropped.
pub open spec fn tick_model(m: Timer, cfg: Cfg, d: u64) -> (Timer, Effect) {
    match m.st {
        State::Running => {
            if m.work_ms + d >= cfg.working {
                let completed = (m.completed + 1) as u64;
                (
                    Timer {
                        work_ms: 0,
                        break_ms: m.break_ms,
                        completed,
                        st: State::NextBreak(break_target(cfg, completed)),
                    },
                    Effect::CompletedWorkSession(cfg.working / MS_PER_MIN),
                )
            } else {
                (Timer { work_ms: (m.work_ms + d) as u64, ..m }, Effect::Nothing)
            }
        },
        State::NextBreak(target) => {
            if m.break_ms + d >= target {
                (Timer { break_ms: 0, st: State::Running, ..m }, Effect::Nothing)
            } else {
                (Timer { break_ms: (m.break_ms + d) as u64, ..m }, Effect::Nothing)
            }
        },
        State::Paused(_) => (m, Effect::Nothing),
    }
}

/// Freezing the current phase: an active phase becomes `Paused`
/// remembering itself; a paused timer stays as it is.
pub open spec fn pause_of(st: State) -> State {
    match st {
        State::Running => State::Paused(None),
        State::NextBreak(target) => State::Paused(Some(target)),
        State::Paused(resume) => State::Paused(resume),
    }
}

/// The pause key toggles: an active phase freezes, a frozen phase resumes
/// into exactly the phase it froze from.
pub open spec fn toggle_pause(st: State) -> State {
    match st {
        State::Running => State::Paused(None),
        State::NextBreak(target) => State::Paused(Some(target)),
        State::Paused(None) => State::Running,
        State::Paused(Some(target)) => State::NextBreak(target),
    }
}

/// The phase after a key press: the pause key toggles pause, switching
/// tabs freezes the timer, every other key leaves the phase alone.
pub open spec fn key_state(st: State, cfg: Cfg, key: Key) -> State {
    if key == Key::Char(cfg.pause_key) {
        toggle_pause(st)
    } else if key == Key::BackTab {
        pause_of(st)
    } else {
        st
    }
}

/// The timer after a key press: only the phase can change; elapsed times
/// and the completion counter are untouched by keys.
pub open spec fn key_model(m: Timer, cfg: Cfg, key: Key) -> Timer {
    Timer { st: key_state(m.st, cfg, key), ..m }
}

/// The timer and effect after one event of the merged stream. The quit
/// key signals termination whatever the phase; ticks follow `tick_model`.
pub open spec fn advance_model(m: Timer, cfg: Cfg, event: Event) -> (Timer, Effect) {
    match event {
        Event::Tick(d) => tick_model(m, cfg, d),
        Event::Input(key) => (
            key_model(m, cfg, key),
            if key == Key::Char(cfg.quit_key) {
                Effect::Quit
            } else {
                Effect::Nothing
            },
        ),
    }
}

/// The selected tab after a key press: switching tabs rotates between the
/// two tabs, other keys leave it.
pub open spec fn key_tab(tab: usize, key: Key) -> usize {
    if key == Key::BackTab {
        ((tab + 1) % 2) as usize
    } else {
        tab
    }
}

/// The selected session after a key press, on a list of `len` records.
/// Up and Down move the selection on the statistics tab, staying within
/// the list; on an empty list there is never a selection.
pub open spec fn key_selection(sel: Option<usize>, len: int, tab: usize, key: Key) -> Option<
    usize,
> {
    if tab == 1 {
        match key {
            Key::Up => match sel {
                Some(i) => if i == 0 {
                    Some(0usize)
                } else {
                    Some((i - 1) as usize)
                },
                None => if len > 0 {
                    Some(0usize)
                } else {
                    None
                },
            },
            Key::Down => match sel {
                Some(i) => if i + 1 < len {
                    Some((i + 1) as usize)
                } else {
                    Some((len - 1) as usize)
                },
                None => if len > 0 {
                    Some(0usize)
                } else {
                    None
                },
            },
            _ => sel,
        }
    } else {
        sel
    }
}

/// The timer invariant: elapsed time in the phase that is active (or
/// frozen by a pause) is strictly below that phase's target, the inactive
/// clock is zero, and a break target is positive. Established at start
/// and preserved by every transition.
pub open spec fn timer_inv(m: Timer, cfg: Cfg) -> bool {
    match m.st {
        State::Running => m.work_ms < cfg.working && m.break_ms == 0,
        State::NextBreak(target) => 0 < target && m.break_ms < target && m.work_ms == 0,
        State::Paused(None) => m.work_ms < cfg.working && m.break_ms == 0,
        State::Paused(Some(target)) => 0 < target && m.break_ms < target && m.work_ms == 0,
    }
}

/// The progress ratio of the timer, in thousandths. Elapsed over target
/// for an active phase, saturating at one; the full sentinel while paused,
/// to tell a renderer the gauge is frozen.
pub open spec fn ratio_model(m: Timer, cfg: Cfg) -> u32 {
    match m.st {
        State::Running => sat_permille(m.work_ms * 1000 / cfg.working as int),
        State::NextBreak(target) => sat_permille(m.break_ms * 1000 / target as int),
        State::Paused(_) => 1000u32,
    }
}

/// Caps a non-negative thousandths value at one thousand.
pub open spec fn sat_permille(x: int) -> u32 {
    if x >= 1000 {
        1000u32
    } else {
        x as u32
    }
}

/// The milliseconds left in the active phase (zero if the target is
/// already overshot), or nothing while paused.
pub open spec fn remaining_model(m: Timer, cfg: Cfg) -> Option<u64> {
    match m.st {
        State::Running => if m.work_ms <= cfg.working {
            Some((cfg.working - m.work_ms) as u64)
        } else {
            Some(0u64)
        },
        State::NextBreak(target) => if m.break_ms <= target {
            Some((target - m.break_ms) as u64)
        } else {
            Some(0u64)
        },
        State::Paused(_) => None,
    }
}

/// The timer state machine together with the data a renderer reads: the
/// stored session list, the completion counter, and the tab/row selection.
/// Owned and mutated by the single event-consuming task alone.
pub struct App {
    pub current_pomodoro: u64,
    pub current_break: u64,
    pub todays_pomodoros: u64,
    pub pomodoros: Vec<Pomodoro>,
    pub state: State,
    pub selected_tab: usize,
    pub selected_pomodoro: Option<usize>,
    pub tabs: Vec<String>,
}

impl App {
    /// The timer model this value embodies.
    pub open spec fn timer(&self) -> Timer {
        Timer {
            work_ms: self.current_pomodoro,
            break_ms: self.current_break,
            completed: self.todays_pomodoros,
            st: self.state,
        }
    }

    /// There are exactly two tabs.
    pub open spec fn tabs_wf(&self) -> bool {
        self.tabs@.len() == 2
    }

    /// Well-formedness of the whole value under a configuration: the timer
    /// invariant, a valid tab index, and a session selection that points
    /// into the list.
    pub open spec fn inv(&self, cfg: &Cfg) -> bool {
        &&& cfg.wf()
        &&& timer_inv(self.timer(), *cfg)
        &&& self.tabs_wf()
        &&& self.selected_tab < 2
        &&& (self.selected_pomodoro matches Some(i) ==> i < self.pomodoros@.len())
    }

    /// A fresh timer: clocks at zero, running, carrying the session count
    /// and records the caller loaded from storage. Valid under every
    /// well-formed configuration.
    pub fn new(todays_pomodoros: u64, pomodoros: Vec<Pomodoro>) -> (app: App)
        ensures
            app.current_pomodoro == 0,
            app.current_break == 0,
            app.todays_pomodoros == todays_pomodoros,
            app.pomodoros == pomodoros,
            app.state == State::Running,
            app.selected_tab == 0,
            app.selected_pomodoro == (if pomodoros@.len() == 0 {
                Option::<usize>::None
            } else {
                Some(0usize)
            }),
            app.tabs_wf(),
            app.tabs@[0]@ == "Pomodoro"@,
            app.tabs@[1]@ == "Statistics"@,
    {
        let selected_pomodoro = if pomodoros.len() == 0 {
            None
        } else {
            Some(0)
        };
        let mut tabs: Vec<String> = Vec::new();
        tabs.push(String::from_str("Pomodoro"));
        tabs.push(String::from_str("Statistics"));
        App {
            current_pomodoro: 0,
            current_break: 0,
            todays_pomodoros,
            pomodoros,
            state: State::Running,
            selected_tab: 0,
            selected_pomodoro,
            tabs,
        }
    }

    /// The tab titles, for the renderer.
    pub fn tabs(&self) -> (r: &Vec<String>)
        ensures
            *r == self.tabs,
    {
        &self.tabs
    }

    /// One key press. The phase follows `key_state`, the selection follows
    /// `key_tab`/`key_selection`, clocks and counter are untouched, and
    /// the result says — whatever the phase — whether the quit key was
    /// pressed and the event loop should stop.
    pub fn key_handler(&mut self, cfg: &Cfg, key: Key) -> (quit: bool)
        requires
            old(self).inv(cfg),
        ensures
            final(self).inv(cfg),
            quit == (key == Key::Char(cfg.quit_key)),
            final(self).timer() == key_model(old(self).timer(), *cfg, key),
            final(self).selected_tab == key_tab(old(self).selected_tab, key),
            final(self).selected_pomodoro == key_selection(
                old(self).selected_pomodoro,
                old(self).pomodoros@.len() as int,
                old(self).selected_tab,
                key,
            ),
            final(self).pomodoros == old(self).pomodoros,
            final(self).tabs == old(self).tabs,
    {
        match key {
            Key::Char(c) => {
                if c == cfg.pause_key {
                    self.state = match self.state {
                        State::Running => State::Paused(None),
                        State::NextBreak(target) => State::Paused(Some(target)),
                        State::Paused(None) => State::Running,
                        State::Paused(Some(target)) => State::NextBreak(target),
                    };
                }
            },
            Key::BackTab => {
                self.selected_tab = (self.selected_tab + self.tabs.len() - 1) % self.tabs.len();
                self.state = match self.state {
                    State::Running => State::Paused(None),
                    State::NextBreak(target) => State::Paused(Some(target)),
                    State::Paused(resume) => State::Paused(resume),
                };
            },
            Key::Up => {
                if self.selected_tab == 1 {
                    match self.selected_pomodoro {
                        Some(sel) => {
                            if sel > 0 {
                                self.selected_pomodoro = Some(sel - 1);
                            }
                        },
                        None => {
                            if self.pomodoros.len() > 0 {
                                self.selected_pomodoro = Some(0);
                            }
                        },
                    }
                }
            },
            Key::Down => {
                if self.selected_tab == 1 {
                    match self.selected_pomodoro {
                        Some(sel) => {
                            let last = self.pomodoros.len() - 1;
                            let next = if sel + 1 < self.pomodoros.len() {
                                sel + 1
                            } else {
                                last
                            };
                            self.selected_pomodoro = Some(next);
                        },
                        None => {
                            if self.pomodoros.len() > 0 {
                                self.selected_pomodoro = Some(0);
                            }
                        },
                    }
                }
            },
            Key::Other => {},
        }
        match key {
            Key::Char(c) => c == cfg.quit_key,
            _ => false,
        }
    }

    /// One clock tick of `duration` milliseconds. The timer follows
    /// `tick_model`; completing a work phase yields the effect asking the
    /// caller to record the session. Everything a tick does not touch —
    /// session list, selection, tabs — is unchanged.
    pub fn tick(&mut self, cfg: &Cfg, duration: u64) -> (r: Effect)
        requires
            old(self).inv(cfg),
            old(self).todays_pomodoros < u64::MAX,
        ensures
            final(self).inv(cfg),
            (final(self).timer(), r) == tick_model(old(self).timer(), *cfg, duration),
            final(self).pomodoros == old(self).pomodoros,
            final(self).selected_tab == old(self).selected_tab,
            final(self).selected_pomodoro == old(self).selected_pomodoro,
            final(self).tabs == old(self).tabs,
    {
        match self.state {
            State::Running => {
                if cfg.working - self.current_pomodoro <= duration {
                    self.todays_pomodoros = self.todays_pomodoros + 1;
                    self.current_pomodoro = 0;
                    if self.todays_pomodoros % 4 == 0 {
                        self.state = State::NextBreak(cfg.long_break);
                    } else {
                        self.state = State::NextBreak(cfg.short_break);
                    }
                    Effect::CompletedWorkSession(cfg.working / MS_PER_MIN)
                } else {
                    self.current_pomodoro = self.current_pomodoro + duration;
                    Effect::Nothing
                }
            },
            State::NextBreak(target) => {
                if target - self.current_break <= duration {
                    self.current_break = 0;
                    self.state = State::Running;
                } else {
                    self.current_break = self.current_break + duration;
                }
                Effect::Nothing
            },
            State::Paused(_) => Effect::Nothing,
        }
    }

    /// One event of the merged stream: a key press is handled by
    /// `key_handler`, a tick by `tick`, and the effect follows
    /// `advance_model` — in particular `Effect::Quit` exactly on the quit
    /// key, whatever the phase.
    pub fn advance(&mut self, cfg: &Cfg, event: Event) -> (r: Effect)
        requires
            old(self).inv(cfg),
            event is Tick ==> old(self).todays_pomodoros < u64::MAX,
        ensures
            final(self).inv(cfg),
            (final(self).timer(), r) == advance_model(old(self).timer(), *cfg, event),
            final(self).pomodoros == old(self).pomodoros,
            final(self).tabs == old(self).tabs,
            final(self).selected_tab == (match event {
                Event::Input(key) => key_tab(old(self).selected_tab, key),
                Event::Tick(_) => old(self).selected_tab,
            }),
            final(self).selected_pomodoro == (match event {
                Event::Input(key) => key_selection(
                    old(self).selected_pomodoro,
                    old(self).pomodoros@.len() as int,
                    old(self).selected_tab,
                    key,
                ),
                Event::Tick(_) => old(self).selected_pomodoro,
            }),
    {
        match event {
            Event::Input(key) => {
                let quit = self.key_handler(cfg, key);
                if quit {
                    Effect::Quit
                } else {
                    Effect::Nothing
                }
            },
            Event::Tick(duration) => self.tick(cfg, duration),
        }
    }

    /// Appends a newly stored session to the in-memory list, which only
    /// ever grows while the program runs; everything else, the timer
    /// included, stays as it is, and validity is kept under every
    /// configuration it held under.
    pub fn record_session(&mut self, pom: Pomodoro)
        ensures
            final(self).pomodoros@ == old(self).pomodoros@.push(pom),
            final(self).timer() == old(self).timer(),
            final(self).selected_tab == old(self).selected_tab,
            final(self).selected_pomodoro == old(self).selected_pomodoro,
            final(self).tabs == old(self).tabs,
            forall|cfg: Cfg| old(self).inv(&cfg) ==> final(self).inv(&cfg),
    {
        self.pomodoros.push(pom);
    }

    /// The targets the progress queries divide by are positive. Implied by
    /// `inv`, but also holds of states a caller builds directly.
    pub open spec fn targets_positive(&self, cfg: &Cfg) -> bool {
        match self.state {
            State::Running => 0 < cfg.working,
            State::NextBreak(target) => 0 < target,
            State::Paused(_) => true,
        }
    }

    /// Progress of the current phase in thousandths, for the renderer's
    /// gauge: elapsed over target, never above one thousand (it saturates
    /// if a caller-built state overshoots the target), and the full
    /// sentinel while paused.
    pub fn ratio_permille(&self, cfg: &Cfg) -> (r: u32)
        requires
            self.targets_positive(cfg),
        ensures
            r <= 1000,
            r == ratio_model(self.timer(), *cfg),
    {
        match self.state {
            State::Running => {
                let q = (self.current_pomodoro as u128) * 1000 / (cfg.working as u128);
                if q >= 1000 {
                    1000
                } else {
                    q as u32
                }
            },
            State::NextBreak(target) => {
                let q = (self.current_break as u128) * 1000 / (target as u128);
                if q >= 1000 {
                    1000
                } else {
                    q as u32
                }
            },
            State::Paused(_) => 1000,
        }
    }

    /// Milliseconds left in the current phase, for the renderer's label;
    /// nothing while paused (the renderer shows the pause instead).
    pub fn remaining_ms(&self, cfg: &Cfg) -> (r: Option<u64>)
        ensures
            r == remaining_model(self.timer(), *cfg),
    {
        match self.state {
            State::Running => {
                if self.current_pomodoro <= cfg.working {
                    Some(cfg.working - self.current_pomodoro)
                } else {
                    Some(0)
                }
            },
            State::NextBreak(target) => {
                if self.current_break <= target {
                    Some(target - self.current_break)
                } else {
                    Some(0)
                }
            },
            State::Paused(_) => None,
        }
    }
}

/// Law: a tick preserves the timer invariant. In particular, right after
/// any tick — of any size, including one overshooting the phase boundary —
/// the elapsed time of the phase then active is strictly below its target.
pub proof fn lemma_tick_preserves_inv(m: Timer, cfg: Cfg, d: u64)
    requires
        cfg.wf(),
        timer_inv(m, cfg),
    ensures
        timer_inv(tick_model(m, cfg, d).0, cfg),
{
}

/// The timer after a whole sequence of ticks, first one first.
pub open spec fn ticks_model(m: Timer, cfg: Cfg, ds: Seq<u64>) -> Timer
    decreases ds.len(),
{
    if ds.len() == 0 {
        m
    } else {
        ticks_model(tick_model(m, cfg, ds[0]).0, cfg, ds.subrange(1, ds.len() as int))
    }
}

/// The total duration of a sequence of ticks, in milliseconds.
pub open spec fn sum_ms(ds: Seq<u64>) -> int
    decreases ds.len(),
{
    if ds.len() == 0 {
        0
    } else {
        ds[0] + sum_ms(ds.subrange(1, ds.len() as int))
    }
}

pub proof fn lemma_sum_ms_nonneg(ds: Seq<u64>)
    ensures
        sum_ms(ds) >= 0,
    decreases ds.len(),
{
    if ds.len() > 0 {
        lemma_sum_ms_nonneg(ds.subrange(1, ds.len() as int));
    }
}

/// Law: any sequence of ticks preserves the timer invariant, so the
/// elapsed time of the active phase is below its target after every one
/// of them.
pub proof fn lemma_ticks_preserve_inv(m: Timer, cfg: Cfg, ds: Seq<u64>)
    requires
        cfg.wf(),
        timer_inv(m, cfg),
    ensures
        timer_inv(ticks_model(m, cfg, ds), cfg),
    decreases ds.len(),
{
    if ds.len() > 0 {
        lemma_tick_preserves_inv(m, cfg, ds[0]);
        lemma_ticks_preserve_inv(tick_model(m, cfg, ds[0]).0, cfg, ds.subrange(1, ds.len() as int));
    }
}

/// Law: as long as the work target is not reached, the work clock
/// accumulates exactly the sum of the tick durations — no tick is lost,
/// none is counted twice — and no session completes.
pub proof fn lemma_ticks_accumulate(m: Timer, cfg: Cfg, ds: Seq<u64>)
    requires
        m.st is Running,
        m.work_ms + sum_ms(ds) < cfg.working,
    ensures
        ticks_model(m, cfg, ds).st is Running,
        ticks_model(m, cfg, ds).work_ms == m.work_ms + sum_ms(ds),
        ticks_model(m, cfg, ds).completed == m.completed,
    decreases ds.len(),
{
    if ds.len() > 0 {
        let rest = ds.subrange(1, ds.len() as int);
        lemma_sum_ms_nonneg(rest);
        lemma_ticks_accumulate(tick_model(m, cfg, ds[0]).0, cfg, rest);
    }
}

/// Law: completing a work phase increments the completion counter by
/// exactly one, reports the work length in minutes, and selects the long
/// break exactly when the new counter is a multiple of four — the short
/// break on all other completions.
pub proof fn lemma_break_selection(m: Timer, cfg: Cfg, d: u64)
    requires
        m.st is Running,
        m.work_ms + d >= cfg.working,
        m.completed < u64::MAX,
    ensures
        tick_model(m, cfg, d).0.completed == m.completed + 1,
        tick_model(m, cfg, d).1 == Effect::CompletedWorkSession(cfg.working / MS_PER_MIN),
        tick_model(m, cfg, d).0.st == State::NextBreak(
            if (m.completed + 1) % 4 == 0 {
                cfg.long_break
            } else {
                cfg.short_break
            },
        ),
{
}

/// Law: pressing the pause key twice, with no tick in between, restores
/// the timer exactly — same phase, same elapsed times, same counter.
pub proof fn lemma_pause_resume_restores(m: Timer, cfg: Cfg)
    ensures
        key_model(key_model(m, cfg, Key::Char(cfg.pause_key)), cfg, Key::Char(cfg.pause_key)) == m,
{
}

/// Law: keys never change elapsed times or the completion counter; only
/// the phase, and only through the pause toggle or the tab switch.
pub proof fn lemma_keys_keep_clocks(m: Timer, cfg: Cfg, key: Key)
    ensures
        key_model(m, cfg, key).work_ms == m.work_ms,
        key_model(m, cfg, key).break_ms == m.break_ms,
        key_model(m, cfg, key).completed == m.completed,
{
}

} // verus!
