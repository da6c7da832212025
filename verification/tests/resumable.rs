use pomo::config::PomoConfig;
use pomo::resumable::PlayState;
use pomo::resumable::ResumablePomodoroTimer;

#[test]
fn resumable_test_stopped_play() {
    let mut timer = ResumablePomodoroTimer::new(PomoConfig::default(), 0);
    timer.tick(100 * 1000).unwrap();
    assert_eq!(25 * 60 * 1000, timer.get_duration_left());
}

#[test]
fn resumable_test_normal_play() {
    let mut timer = ResumablePomodoroTimer::new(PomoConfig::default(), 0);
    timer.set_state(PlayState::Playing).unwrap();
    timer.tick(100 * 1000).unwrap();
    assert_eq!(25 * 60 * 1000 - 100 * 1000, timer.get_duration_left());
}

#[test]
fn resumable_test_paused_play() {
    let mut timer = ResumablePomodoroTimer::new(PomoConfig::default(), 0);
    timer.set_state(PlayState::Paused).unwrap();
    timer.tick(100 * 1000).unwrap();
    assert_eq!(25 * 60 * 1000, timer.get_duration_left());
}
