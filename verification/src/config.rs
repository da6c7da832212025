use vstd::prelude::*;

use crate::args::PomodoroArgs;
use crate::result::TimerResult;
use crate::result::TimerStateError;

verus! {

/// The immutable schedule of a pomodoro session: phase durations in
/// minutes and the number of completed breaks between long breaks.
#[derive(Debug, Clone, Copy, PartialEq, Eq, Structural)]
pub struct PomoConfig {
    pub work_duration_minutes: u8,
    pub break_duration_minutes: u8,
    pub long_break_duration_minutes: u8,
    pub cycles_to_do: u8,
    pub cycles_per_long_break: u8,
}

impl PomoConfig {
    /// The configuration invariant: every duration is at least one
    /// minute and the long-break threshold is at least one cycle.
    pub open spec fn valid(self) -> bool {
        &&& self.work_duration_minutes >= 1
        &&& self.break_duration_minutes >= 1
        &&& self.long_break_duration_minutes >= 1
        &&& self.cycles_per_long_break >= 1
    }

    /// Validating constructor: a configuration with a zero-valued
    /// duration or a zero long-break threshold is rejected here, so that
    /// ticking never has to handle it.
    pub fn new(
        work_duration_minutes: u8,
        break_duration_minutes: u8,
        long_break_duration_minutes: u8,
        cycles_to_do: u8,
        cycles_per_long_break: u8,
    ) -> (r: TimerResult<PomoConfig>)
        ensures
            r is Ok <==> (work_duration_minutes >= 1 && break_duration_minutes >= 1
                && long_break_duration_minutes >= 1 && cycles_per_long_break >= 1),
            r matches Ok(c) ==> c == (PomoConfig {
                work_duration_minutes,
                break_duration_minutes,
                long_break_duration_minutes,
                cycles_to_do,
                cycles_per_long_break,
            }) && c.valid(),
            r matches Err(e) ==> e == TimerStateError::InvalidState,
    {
        if work_duration_minutes >= 1 && break_duration_minutes >= 1
            && long_break_duration_minutes >= 1 && cycles_per_long_break >= 1
        {
            Ok(PomoConfig {
                work_duration_minutes,
                break_duration_minutes,
                long_break_duration_minutes,
                cycles_to_do,
                cycles_per_long_break,
            })
        } else {
            Err(TimerStateError::InvalidState)
        }
    }
}

impl Default for PomoConfig {
    /// A bog-standard pomodoro timing configuration.
    /// Mainly used for testing.
    fn default() -> (r: Self)
        ensures
            r == (PomoConfig {
                work_duration_minutes: 25,
                break_duration_minutes: 5,
                long_break_duration_minutes: 15,
                cycles_to_do: 4,
                cycles_per_long_break: 4,
            }),
            r.valid(),
    {
        PomoConfig {
            work_duration_minutes: 25,
            break_duration_minutes: 5,
            long_break_duration_minutes: 15,
            cycles_to_do: 4,
            cycles_per_long_break: 4,
        }
    }
}

impl From<PomodoroArgs> for PomoConfig {
    fn from(value: PomodoroArgs) -> (r: Self) {
        PomoConfig {
            work_duration_minutes: value.duration,
            break_duration_minutes: value.break_duration,
            long_break_duration_minutes: value.long_break_duration,
            cycles_to_do: value.cycles,
            cycles_per_long_break: 4,
        }
    }
}

impl vstd::std_specs::convert::FromSpecImpl<PomodoroArgs> for PomoConfig {
    open spec fn obeys_from_spec() -> bool {
        true
    }

    open spec fn from_spec(value: PomodoroArgs) -> Self {
        PomoConfig {
            work_duration_minutes: value.duration,
            break_duration_minutes: value.break_duration,
            long_break_duration_minutes: value.long_break_duration,
            cycles_to_do: value.cycles,
            cycles_per_long_break: 4,
        }
    }
}

} // verus!
