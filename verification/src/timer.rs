use vstd::prelude::*;

use crate::config::PomoConfig;
use crate::mode::PomodoroTimerMode;
use crate::result::TimerResult;
use crate::state::spec_tick;
use crate::state::TimerView;

verus! {

/// The contract of a timer state machine, stated over an abstract view
/// of its state. `tick` consumes elapsed time under the carry-over
/// semantics of `spec_tick`; the remaining operations read or override
/// single components of the state.
pub trait Timer: Sized {
    /// Well-formedness of the timer's own invariant.
    spec fn timer_wf(&self) -> bool;

    /// The schedule the timer runs on.
    spec fn timer_config(&self) -> PomoConfig;

    /// The abstract state: phase, remaining milliseconds, cycles done.
    spec fn timer_view(&self) -> TimerView;

    /// Update timer state, given that a specified time has been spent
    /// since the last tick.
    fn tick(&mut self, time_elapsed_since: u64) -> (r: TimerResult<()>)
        requires
            old(self).timer_wf(),
            spec_tick(
                old(self).timer_config(),
                old(self).timer_view(),
                time_elapsed_since as int,
            ).cycles <= u8::MAX as int,
        ensures
            r is Ok,
            final(self).timer_wf(),
            final(self).timer_config() == old(self).timer_config(),
            final(self).timer_view() == spec_tick(
                old(self).timer_config(),
                old(self).timer_view(),
                time_elapsed_since as int,
            ),
    ;

    fn get_state(&self) -> (r: PomodoroTimerMode)
        ensures
            r == self.timer_view().mode,
    ;

    fn get_duration_left(&self) -> (r: u64)
        ensures
            r == self.timer_view().remaining,
    ;

    /// Directly override the remaining time; used by the play
    /// controller's stop path and not during normal ticking.
    fn set_duration_left(&mut self, duration_left: u64) -> (r: TimerResult<()>)
        ensures
            r is Ok,
            final(self).timer_wf() == old(self).timer_wf(),
            final(self).timer_config() == old(self).timer_config(),
            final(self).timer_view() == (TimerView {
                mode: old(self).timer_view().mode,
                remaining: duration_left as int,
                cycles: old(self).timer_view().cycles,
            }),
    ;

    fn get_cycles_done(&self) -> (r: u8)
        ensures
            r == self.timer_view().cycles,
    ;

    fn get_config(&self) -> (r: PomoConfig)
        ensures
            r == self.timer_config(),
    ;
}

} // verus!
