use vstd::prelude::*;

use crate::config::PomoConfig;

verus! {

/// Milliseconds in one minute; phase durations are configured in minutes
/// and ticked in milliseconds.
pub const MILLIS_PER_MINUTE: u64 = 60 * 1000;

/// The phase the timer is currently in.
#[derive(Debug, Clone, Copy, PartialEq, Eq, Structural)]
pub enum PomodoroTimerMode {
    Work,
    Break,
    LongBreak,
}

impl Default for PomodoroTimerMode {
    fn default() -> (r: Self)
        ensures
            r == PomodoroTimerMode::Work,
    {
        PomodoroTimerMode::Work
    }
}

impl PomodoroTimerMode {
    /// The phase that follows this one. Leaving `Work` schedules a long
    /// break whenever the count of completed breaks is a multiple of the
    /// configured threshold, and a short break otherwise; leaving either
    /// kind of break always returns to `Work`.
    pub open spec fn spec_next(self, works_done: int, works_per_long_break: int) -> PomodoroTimerMode {
        match self {
            PomodoroTimerMode::Work => {
                if works_done % works_per_long_break == 0 {
                    PomodoroTimerMode::LongBreak
                } else {
                    PomodoroTimerMode::Break
                }
            }
            PomodoroTimerMode::Break => PomodoroTimerMode::Work,
            PomodoroTimerMode::LongBreak => PomodoroTimerMode::Work,
        }
    }

    /// The configured duration of this phase, in milliseconds.
    pub open spec fn spec_phase_millis(self, config: PomoConfig) -> int {
        let minutes = match self {
            PomodoroTimerMode::Work => config.work_duration_minutes,
            PomodoroTimerMode::Break => config.break_duration_minutes,
            PomodoroTimerMode::LongBreak => config.long_break_duration_minutes,
        };
        minutes as int * MILLIS_PER_MINUTE as int
    }

    /// Transition rule to the next phase, given the cycle count.
    pub fn next(&self, works_done: u8, works_per_long_break: u8) -> (r: PomodoroTimerMode)
        requires
            works_per_long_break >= 1,
        ensures
            r == self.spec_next(works_done as int, works_per_long_break as int),
    {
        match self {
            PomodoroTimerMode::Work => {
                if works_done % works_per_long_break == 0 {
                    PomodoroTimerMode::LongBreak
                } else {
                    PomodoroTimerMode::Break
                }
            }
            PomodoroTimerMode::Break | PomodoroTimerMode::LongBreak => {
                PomodoroTimerMode::Work
            }
        }
    }

    /// The full duration, in milliseconds, that a phase of this mode runs
    /// for under the given configuration.
    pub fn get_new_time_left_millis_for_state(&self, state: &PomoConfig) -> (r: u64)
        ensures
            r == self.spec_phase_millis(*state),
    {
        let new_time_minutes: u64 = match self {
            PomodoroTimerMode::Work => state.work_duration_minutes,
            PomodoroTimerMode::Break => state.break_duration_minutes,
            PomodoroTimerMode::LongBreak => state.long_break_duration_minutes,
        } as u64;
        new_time_minutes * MILLIS_PER_MINUTE
    }
}

} // verus!
