use vstd::prelude::*;

use crate::config::PomoConfig;
use crate::mode::PomodoroTimerMode;
use crate::mode::MILLIS_PER_MINUTE;
use crate::result::TimerResult;
use crate::timer::Timer;
use vstd::arithmetic::div_mod::lemma_div_is_ordered;
use vstd::arithmetic::div_mod::lemma_div_minus_one;
use vstd::arithmetic::div_mod::lemma_div_pos_is_pos;

verus! {

/// The mathematical state of the timer state machine: the current
/// phase, the time remaining in it in milliseconds, and the count of
/// completed break phases.
#[verifier::ext_equal]
pub struct TimerView {
    pub mode: PomodoroTimerMode,
    pub remaining: int,
    pub cycles: int,
}

/// One phase boundary: leaving a break or a long break counts one
/// completed cycle, then the following phase is chosen by the
/// transition rule and its full configured duration is restored.
pub open spec fn spec_transition(config: PomoConfig, s: TimerView) -> TimerView {
    let cycles = if s.mode == PomodoroTimerMode::Break || s.mode == PomodoroTimerMode::LongBreak {
        s.cycles + 1
    } else {
        s.cycles
    };
    let mode = s.mode.spec_next(cycles, config.cycles_per_long_break as int);
    TimerView { mode, remaining: mode.spec_phase_millis(config), cycles }
}

/// Advancing the timer by `elapsed` milliseconds: the current phase's
/// remaining time is consumed first, and any excess carries over into
/// the following phases, crossing as many boundaries as it spans.
pub open spec fn spec_tick(config: PomoConfig, s: TimerView, elapsed: int) -> TimerView
    decreases elapsed, (if s.remaining == 0 { 1int } else { 0int })
        when config.valid() && 0 <= elapsed && 0 <= s.remaining
{
    if elapsed <= s.remaining {
        TimerView { mode: s.mode, remaining: s.remaining - elapsed, cycles: s.cycles }
    } else {
        spec_tick(config, spec_transition(config, s), elapsed - s.remaining)
    }
}

/// How many break or long-break phases are exited while advancing by
/// `elapsed` milliseconds; work phases exited contribute nothing.
pub open spec fn spec_breaks_exited(config: PomoConfig, s: TimerView, elapsed: int) -> int
    decreases elapsed, (if s.remaining == 0 { 1int } else { 0int })
        when config.valid() && 0 <= elapsed && 0 <= s.remaining
{
    if elapsed <= s.remaining {
        0
    } else {
        let exited: int = if s.mode == PomodoroTimerMode::Break
            || s.mode == PomodoroTimerMode::LongBreak { 1 } else { 0 };
        exited + spec_breaks_exited(config, spec_transition(config, s), elapsed - s.remaining)
    }
}

/// A tick never loses time below zero and never un-counts a cycle.
pub proof fn lemma_tick_basics(config: PomoConfig, s: TimerView, elapsed: int)
    requires
        config.valid(),
        0 <= elapsed,
        0 <= s.remaining,
    ensures
        spec_tick(config, s, elapsed).cycles >= s.cycles,
        spec_tick(config, s, elapsed).remaining >= 0,
    decreases elapsed, (if s.remaining == 0 { 1int } else { 0int }),
{
    if elapsed > s.remaining {
        lemma_tick_basics(config, spec_transition(config, s), elapsed - s.remaining);
    }
}

/// Within-phase law: when the elapsed time does not exceed the
/// remaining time, a tick leaves the phase and the cycle count
/// unchanged and decreases the remaining time by exactly the elapsed
/// time.
pub proof fn lemma_tick_within_phase(config: PomoConfig, s: TimerView, elapsed: int)
    requires
        config.valid(),
        0 <= elapsed,
        elapsed <= s.remaining,
    ensures
        spec_tick(config, s, elapsed) == (TimerView {
            mode: s.mode,
            remaining: s.remaining - elapsed,
            cycles: s.cycles,
        }),
{
}

/// Phase-crossing law: when the elapsed time exceeds the remaining
/// time, the tick crosses into the phase given by the transition rule
/// and carries the excess over, and the state it finally arrives in
/// holds a remaining time strictly below that phase's full duration.
pub proof fn lemma_tick_crosses_phase(config: PomoConfig, s: TimerView, elapsed: int)
    requires
        config.valid(),
        0 <= s.remaining,
        s.remaining < elapsed,
    ensures
        spec_tick(config, s, elapsed)
            == spec_tick(config, spec_transition(config, s), elapsed - s.remaining),
        0 <= spec_tick(config, s, elapsed).remaining,
        spec_tick(config, s, elapsed).remaining
            < spec_tick(config, s, elapsed).mode.spec_phase_millis(config),
    decreases elapsed, (if s.remaining == 0 { 1int } else { 0int }),
{
    let s2 = spec_transition(config, s);
    let e2 = elapsed - s.remaining;
    if e2 > s2.remaining {
        lemma_tick_crosses_phase(config, s2, e2);
    }
}

/// Idempotence of the empty tick: advancing by zero changes nothing.
pub proof fn lemma_tick_zero(config: PomoConfig, s: TimerView)
    requires
        config.valid(),
        0 <= s.remaining,
    ensures
        spec_tick(config, s, 0) == s,
{
    assert(spec_tick(config, s, 0) =~= s);
}

/// Carry-over law: ticking by `a` and then by `b` ends in the same
/// state as a single tick by `a + b`.
pub proof fn lemma_tick_additive(config: PomoConfig, s: TimerView, a: int, b: int)
    requires
        config.valid(),
        0 <= a,
        0 <= b,
        0 <= s.remaining,
    ensures
        spec_tick(config, spec_tick(config, s, a), b) == spec_tick(config, s, a + b),
    decreases a, (if s.remaining == 0 { 1int } else { 0int }),
{
    if a <= s.remaining {
        let s1 = spec_tick(config, s, a);
        if b > s1.remaining {
            assert(spec_transition(config, s1) =~= spec_transition(config, s));
        }
    } else {
        lemma_tick_additive(config, spec_transition(config, s), a - s.remaining, b);
    }
}

/// Cycle-counting law: a tick increments the completed-cycle count by
/// exactly one per break or long-break phase exited, and never on
/// leaving a work phase.
pub proof fn lemma_tick_cycle_count(config: PomoConfig, s: TimerView, elapsed: int)
    requires
        config.valid(),
        0 <= elapsed,
        0 <= s.remaining,
    ensures
        spec_tick(config, s, elapsed).cycles == s.cycles + spec_breaks_exited(config, s, elapsed),
    decreases elapsed, (if s.remaining == 0 { 1int } else { 0int }),
{
    if elapsed > s.remaining {
        lemma_tick_cycle_count(config, spec_transition(config, s), elapsed - s.remaining);
    }
}

/// Helper for the overflow bound: from the start of a full phase, each
/// phase boundary crossed costs at least one minute of elapsed time.
proof fn lemma_tick_cycles_bound_full_phase(config: PomoConfig, s: TimerView, elapsed: int)
    requires
        config.valid(),
        0 <= elapsed,
        s.remaining >= MILLIS_PER_MINUTE,
    ensures
        spec_tick(config, s, elapsed).cycles <= s.cycles + elapsed / (MILLIS_PER_MINUTE as int),
    decreases elapsed,
{
    let m = MILLIS_PER_MINUTE as int;
    if elapsed <= s.remaining {
        lemma_div_pos_is_pos(elapsed, m);
    } else {
        let s2 = spec_transition(config, s);
        let e2 = elapsed - s.remaining;
        lemma_tick_cycles_bound_full_phase(config, s2, e2);
        lemma_div_is_ordered(e2, elapsed - m, m);
        lemma_div_minus_one(elapsed, m);
    }
}

/// Machine-limit bound: a tick completes at most one cycle, plus one
/// more per full minute of elapsed time. Callers use it to show that
/// the cycle counter cannot overflow.
pub proof fn lemma_tick_cycles_bound(config: PomoConfig, s: TimerView, elapsed: int)
    requires
        config.valid(),
        0 <= elapsed,
        0 <= s.remaining,
    ensures
        spec_tick(config, s, elapsed).cycles
            <= s.cycles + 1 + elapsed / (MILLIS_PER_MINUTE as int),
{
    let m = MILLIS_PER_MINUTE as int;
    if elapsed <= s.remaining {
        lemma_div_pos_is_pos(elapsed, m);
    } else {
        let s2 = spec_transition(config, s);
        let e2 = elapsed - s.remaining;
        lemma_tick_cycles_bound_full_phase(config, s2, e2);
        lemma_div_is_ordered(e2, elapsed, m);
    }
}

/// The timer state machine: owns the schedule, the current phase, the
/// milliseconds left in it, and the count of completed break phases.
#[derive(Debug)]
pub struct PomodoroTimer {
    pub config: PomoConfig,
    pub millis_left_in_state: u64,
    pub mode: PomodoroTimerMode,
    pub cycles_done: u8,
}

impl View for PomodoroTimer {
    type V = TimerView;

    open spec fn view(&self) -> TimerView {
        TimerView {
            mode: self.mode,
            remaining: self.millis_left_in_state as int,
            cycles: self.cycles_done as int,
        }
    }
}

impl PomodoroTimer {
    /// Well-formedness: the owned configuration satisfies its invariant.
    pub open spec fn wf(self) -> bool {
        self.config.valid()
    }

    /// Create a new pomodoro timer that starts a full work phase.
    pub fn new(config: PomoConfig, cycles_done: u8) -> (r: Self)
        ensures
            r.config == config,
            r@ == (TimerView {
                mode: PomodoroTimerMode::Work,
                remaining: PomodoroTimerMode::Work.spec_phase_millis(config),
                cycles: cycles_done as int,
            }),
    {
        let initial_state = PomodoroTimerMode::Work;
        let initial_time: u64 = initial_state.get_new_time_left_millis_for_state(&config);
        PomodoroTimer {
            config,
            millis_left_in_state: initial_time,
            mode: initial_state,
            cycles_done,
        }
    }

    /// Count the phase being exited: leaving a break or a long break
    /// completes one cycle; leaving a work phase completes none.
    fn check_and_increment_cycle(&mut self)
        requires
            (old(self).mode == PomodoroTimerMode::Break
                || old(self).mode == PomodoroTimerMode::LongBreak)
                ==> old(self).cycles_done < u8::MAX,
        ensures
            final(self).config == old(self).config,
            final(self).mode == old(self).mode,
            final(self).millis_left_in_state == old(self).millis_left_in_state,
            (old(self).mode == PomodoroTimerMode::Break
                || old(self).mode == PomodoroTimerMode::LongBreak)
                ==> final(self).cycles_done == old(self).cycles_done + 1,
            old(self).mode == PomodoroTimerMode::Work
                ==> final(self).cycles_done == old(self).cycles_done,
    {
        if self.mode == PomodoroTimerMode::Break || self.mode == PomodoroTimerMode::LongBreak {
            self.cycles_done += 1;
        }
    }

    /// Move to the phase chosen by the transition rule and restore its
    /// full configured duration.
    fn change_state_and_reset_time(&mut self)
        requires
            old(self).wf(),
        ensures
            final(self).config == old(self).config,
            final(self).cycles_done == old(self).cycles_done,
            final(self).mode == old(self).mode.spec_next(
                old(self).cycles_done as int,
                old(self).config.cycles_per_long_break as int,
            ),
            final(self).millis_left_in_state
                == final(self).mode.spec_phase_millis(old(self).config),
    {
        self.mode = self.mode.next(self.cycles_done, self.config.cycles_per_long_break);
        self.millis_left_in_state = self.mode.get_new_time_left_millis_for_state(&self.config);
    }
}

impl Timer for PomodoroTimer {
    open spec fn timer_wf(&self) -> bool {
        self.wf()
    }

    open spec fn timer_config(&self) -> PomoConfig {
        self.config
    }

    open spec fn timer_view(&self) -> TimerView {
        self@
    }

    fn tick(&mut self, time_elapsed_since: u64) -> (r: TimerResult<()>) {
        let ghost cfg = old(self).config;
        let ghost target = spec_tick(cfg, old(self)@, time_elapsed_since as int);
        let mut left: u64 = time_elapsed_since;
        while left > self.millis_left_in_state
            invariant
                self.wf(),
                self.config == cfg,
                spec_tick(cfg, self@, left as int) == target,
                target.cycles <= u8::MAX as int,
            decreases left, (if self.millis_left_in_state == 0 { 1int } else { 0int }),
        {
            let ghost pre = self@;
            let carry: u64 = left - self.millis_left_in_state;
            proof {
                lemma_tick_basics(cfg, spec_transition(cfg, pre), carry as int);
            }
            self.check_and_increment_cycle();
            self.change_state_and_reset_time();
            assert(self@ =~= spec_transition(cfg, pre));
            left = carry;
        }
        self.millis_left_in_state = self.millis_left_in_state - left;
        Ok(())
    }

    fn get_state(&self) -> (r: PomodoroTimerMode) {
        self.mode
    }

    fn get_duration_left(&self) -> (r: u64) {
        self.millis_left_in_state
    }

    fn set_duration_left(&mut self, duration_left: u64) -> (r: TimerResult<()>) {
        self.millis_left_in_state = duration_left;
        Ok(())
    }

    fn get_cycles_done(&self) -> (r: u8) {
        self.cycles_done
    }

    fn get_config(&self) -> (r: PomoConfig) {
        self.config
    }
}

} // verus!
