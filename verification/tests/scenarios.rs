use pomo::config::PomoConfig;
use pomo::mode::PomodoroTimerMode::Break;
use pomo::mode::PomodoroTimerMode::LongBreak;
use pomo::mode::PomodoroTimerMode::Work;
use pomo::resumable::PlayState;
use pomo::resumable::ResumablePomodoroTimer;
use pomo::state::PomodoroTimer;
use pomo::timer::Timer;

#[test]
fn work_boundary_tick_stays_in_phase() {
    let mut timer = PomodoroTimer::new(PomoConfig::default(), 0);
    timer.tick(25 * 60 * 1000).expect("Tick failed");
    assert_eq!(Work, timer.get_state());
    assert_eq!(0, timer.get_duration_left());
    assert_eq!(0, timer.get_cycles_done());
}

#[test]
fn first_work_period_rolls_into_long_break() {
    let mut timer = PomodoroTimer::new(PomoConfig::default(), 0);
    timer.tick(25 * 60 * 1000 + 1).expect("Tick failed");
    assert_eq!(LongBreak, timer.get_state());
    assert_eq!(15 * 60 * 1000 - 1, timer.get_duration_left());
    assert_eq!(0, timer.get_cycles_done());
}

#[test]
fn fourth_work_period_rolls_into_short_break() {
    let mut timer = PomodoroTimer::new(PomoConfig::default(), 3);
    timer.tick(25 * 60 * 1000 + 1).expect("Tick failed");
    assert_eq!(Break, timer.get_state());
    assert_eq!(5 * 60 * 1000 - 1, timer.get_duration_left());
    assert_eq!(3, timer.get_cycles_done());
}

#[test]
fn break_exit_counts_cycle() {
    let mut timer = PomodoroTimer {
        millis_left_in_state: 1000,
        mode: Break,
        cycles_done: 0,
        config: PomoConfig::default(),
    };
    timer.tick(1001).expect("Tick failed");
    assert_eq!(Work, timer.get_state());
    assert_eq!(25 * 60 * 1000 - 1, timer.get_duration_left());
    assert_eq!(1, timer.get_cycles_done());
}

#[test]
fn work_exit_counts_no_cycle() {
    let mut timer = PomodoroTimer {
        millis_left_in_state: 5,
        mode: Work,
        cycles_done: 1,
        config: PomoConfig::default(),
    };
    timer.tick(6).expect("Tick failed");
    assert_eq!(Break, timer.get_state());
    assert_eq!(1, timer.get_cycles_done());
}

#[test]
fn tick_zero_changes_nothing() {
    let mut timer = PomodoroTimer {
        millis_left_in_state: 1234,
        mode: LongBreak,
        cycles_done: 2,
        config: PomoConfig::default(),
    };
    timer.tick(0).expect("Tick failed");
    assert_eq!(LongBreak, timer.get_state());
    assert_eq!(1234, timer.get_duration_left());
    assert_eq!(2, timer.get_cycles_done());
}

#[test]
fn split_tick_equals_single_tick() {
    let a: u64 = 10 * 60 * 1000 + 123;
    let b: u64 = 20 * 60 * 1000 + 456;
    let mut split = PomodoroTimer::new(PomoConfig::default(), 0);
    split.tick(a).expect("Tick failed");
    split.tick(b).expect("Tick failed");
    let mut single = PomodoroTimer::new(PomoConfig::default(), 0);
    single.tick(a + b).expect("Tick failed");
    assert_eq!(single.get_state(), split.get_state());
    assert_eq!(single.get_duration_left(), split.get_duration_left());
    assert_eq!(single.get_cycles_done(), split.get_cycles_done());
}

#[test]
fn tick_crosses_many_phases() {
    let mut timer = PomodoroTimer::new(PomoConfig::default(), 0);
    let elapsed: u64 = (25 + 15 + 25 + 5) * 60 * 1000 + 100;
    timer.tick(elapsed).expect("Tick failed");
    assert_eq!(Work, timer.get_state());
    assert_eq!(25 * 60 * 1000 - 100, timer.get_duration_left());
    assert_eq!(2, timer.get_cycles_done());
}

#[test]
fn stopping_resets_current_phase_countdown() {
    let mut timer = ResumablePomodoroTimer {
        timer: PomodoroTimer {
            millis_left_in_state: 1000,
            mode: Break,
            cycles_done: 2,
            config: PomoConfig::default(),
        },
        play_state: PlayState::Playing,
    };
    timer.set_state(PlayState::Stopped).expect("Should be stopped now");
    assert_eq!(Break, timer.get_state());
    assert_eq!(5 * 60 * 1000, timer.get_duration_left());
    assert_eq!(2, timer.get_cycles_done());
}

#[test]
fn gated_tick_changes_no_state_at_all() {
    for gate in [PlayState::Paused, PlayState::Stopped] {
        let mut timer = ResumablePomodoroTimer {
            timer: PomodoroTimer {
                millis_left_in_state: 777,
                mode: LongBreak,
                cycles_done: 3,
                config: PomoConfig::default(),
            },
            play_state: gate,
        };
        timer.tick(90 * 60 * 1000).unwrap();
        assert_eq!(LongBreak, timer.get_state());
        assert_eq!(777, timer.get_duration_left());
        assert_eq!(3, timer.get_cycles_done());
    }
}

#[test]
fn set_duration_left_overrides_countdown() {
    let mut timer = ResumablePomodoroTimer::new(PomoConfig::default(), 0);
    timer.set_duration_left(4242).unwrap();
    assert_eq!(4242, timer.get_duration_left());
    assert_eq!(Work, timer.get_state());
}

#[test]
fn config_round_trip_through_controller() {
    let config = PomoConfig::new(1, 1, 1, 1, 1).unwrap();
    let timer = ResumablePomodoroTimer::new(config, 0);
    assert_eq!(config, timer.get_config());
    assert_eq!(60 * 1000, timer.get_duration_left());
}
