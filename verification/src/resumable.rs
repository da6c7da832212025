use vstd::prelude::*;

use crate::config::PomoConfig;
use crate::mode::PomodoroTimerMode;
use crate::result::TimerResult;
use crate::state::spec_tick;
use crate::state::PomodoroTimer;
use crate::state::TimerView;
use crate::timer::Timer;

verus! {

/// Gate that governs whether ticks reach the inner timer.
#[derive(Debug, Clone, Copy, PartialEq, Eq, Structural)]
pub enum PlayState {
    Playing,
    Paused,
    Stopped,
}

/// A pomodoro timer that also supports pausing, resuming and stopping:
/// it owns a `PomodoroTimer` and a `PlayState`, forwards ticks only
/// while playing, and restarts the current phase's countdown on stop.
pub struct ResumablePomodoroTimer {
    pub timer: PomodoroTimer,
    pub play_state: PlayState,
}

impl ResumablePomodoroTimer {
    /// Well-formedness: the inner timer's configuration is valid.
    pub open spec fn wf(self) -> bool {
        self.timer.wf()
    }

    /// Create a new stopped pomodoro timer at the start of a full work
    /// phase.
    pub fn new(ppomo_config: PomoConfig, cycles_done: u8) -> (r: Self)
        ensures
            r.timer.config == ppomo_config,
            r.timer@ == (TimerView {
                mode: PomodoroTimerMode::Work,
                remaining: PomodoroTimerMode::Work.spec_phase_millis(ppomo_config),
                cycles: cycles_done as int,
            }),
            r.play_state == PlayState::Stopped,
    {
        let timer = PomodoroTimer::new(ppomo_config, cycles_done);
        let play_state = PlayState::Stopped;
        ResumablePomodoroTimer { timer, play_state }
    }

    /// Set a new play state. Stopping restarts the countdown: the
    /// remaining time is reset to the full configured duration of the
    /// phase the timer currently is in, while the phase and the cycle
    /// count are kept; entering `Playing` or `Paused` only moves the
    /// gate.
    pub fn set_state(&mut self, new_state: PlayState) -> (r: TimerResult<()>)
        requires
            old(self).wf(),
        ensures
            r is Ok,
            final(self).play_state == new_state,
            final(self).timer.config == old(self).timer.config,
            final(self).timer@.mode == old(self).timer@.mode,
            final(self).timer@.cycles == old(self).timer@.cycles,
            new_state == PlayState::Stopped ==> final(self).timer@.remaining
                == old(self).timer@.mode.spec_phase_millis(old(self).timer.config),
            new_state != PlayState::Stopped ==> final(self).timer@.remaining
                == old(self).timer@.remaining,
    {
        if let PlayState::Stopped = new_state {
            let config = self.get_config();
            let full: u64 = self.timer.get_state().get_new_time_left_millis_for_state(&config);
            match self.timer.set_duration_left(full) {
                Ok(()) => {}
                Err(e) => {
                    return Err(e);
                }
            }
        }
        self.play_state = new_state;
        Ok(())
    }

    /// Apply elapsed time, but only while playing: time that passes
    /// while paused or stopped is discarded, never buffered.
    pub fn tick(&mut self, time_elapsed_since: u64) -> (r: TimerResult<()>)
        requires
            old(self).wf(),
            old(self).play_state == PlayState::Playing ==> spec_tick(
                old(self).timer.config,
                old(self).timer@,
                time_elapsed_since as int,
            ).cycles <= u8::MAX as int,
        ensures
            r is Ok,
            final(self).play_state == old(self).play_state,
            final(self).timer.config == old(self).timer.config,
            old(self).play_state == PlayState::Playing ==> final(self).timer@ == spec_tick(
                old(self).timer.config,
                old(self).timer@,
                time_elapsed_since as int,
            ),
            old(self).play_state != PlayState::Playing ==> *final(self) == *old(self),
    {
        match self.play_state {
            PlayState::Playing => self.timer.tick(time_elapsed_since),
            PlayState::Paused | PlayState::Stopped => Ok(()),
        }
    }

    pub fn get_state(&self) -> (r: PomodoroTimerMode)
        ensures
            r == self.timer@.mode,
    {
        self.timer.get_state()
    }

    pub fn get_duration_left(&self) -> (r: u64)
        ensures
            r == self.timer@.remaining,
    {
        self.timer.get_duration_left()
    }

    /// Directly override the inner timer's remaining time.
    pub fn set_duration_left(&mut self, duration_left: u64) -> (r: TimerResult<()>)
        ensures
            r is Ok,
            final(self).play_state == old(self).play_state,
            final(self).timer.config == old(self).timer.config,
            final(self).timer@ == (TimerView {
                mode: old(self).timer@.mode,
                remaining: duration_left as int,
                cycles: old(self).timer@.cycles,
            }),
    {
        self.timer.set_duration_left(duration_left)
    }

    pub fn get_cycles_done(&self) -> (r: u8)
        ensures
            r == self.timer@.cycles,
    {
        self.timer.get_cycles_done()
    }

    pub fn get_config(&self) -> (r: PomoConfig)
        ensures
            r == self.timer.config,
    {
        self.timer.get_config()
    }
}

} // verus!
