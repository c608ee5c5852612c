use phi::driver::{
    channels_after_failure, pace_frame, transition, Config, FpsCounter, FramePacing, LoopState,
    ViewAction,
};
use phi::events::{Events, KeyState};

#[derive(Debug, PartialEq, Eq, Clone, Copy)]
enum DemoView {
    Menu,
    Game,
}

#[test]
fn short_frame_sleeps_out_the_difference() {
    match pace_frame(10, 16) {
        FramePacing::Wait(delay) => assert_eq!(delay, 6),
        FramePacing::Run(_) => panic!("a short frame must wait, not run"),
    }
}

#[test]
fn long_frame_runs_with_measured_time() {
    match pace_frame(16, 16) {
        FramePacing::Run(dt) => assert_eq!(dt, 16),
        FramePacing::Wait(_) => panic!("a full frame must run"),
    }
    match pace_frame(100, 16) {
        FramePacing::Run(dt) => assert_eq!(dt, 100),
        FramePacing::Wait(_) => panic!("a slow frame must still run"),
    }
}

#[test]
fn continue_keeps_the_current_view() {
    let state = transition(DemoView::Menu, false, ViewAction::Continue);
    assert!(matches!(state, LoopState::Running(DemoView::Menu)));
}

#[test]
fn replace_view_renders_the_new_view_same_frame() {
    let state = transition(DemoView::Menu, false, ViewAction::ReplaceView(DemoView::Game));
    assert!(matches!(state, LoopState::Running(DemoView::Game)));
}

#[test]
fn quit_action_terminates() {
    let state = transition(DemoView::Menu, false, ViewAction::Quit);
    assert!(matches!(state, LoopState::Terminated));
}

#[test]
fn quit_signal_overrides_the_view() {
    let replaced = transition(DemoView::Menu, true, ViewAction::ReplaceView(DemoView::Game));
    assert!(matches!(replaced, LoopState::Terminated));
    let continued = transition(DemoView::Menu, true, ViewAction::Continue);
    assert!(matches!(continued, LoopState::Terminated));
}

#[test]
fn fps_counter_reports_once_per_second() {
    let mut counter = FpsCounter::new(0);
    assert_eq!(counter.record_frame(16), None);
    assert_eq!(counter.record_frame(32), None);
    assert_eq!(counter.frames, 2);
    let report = counter.record_frame(1000);
    assert_eq!(report, None);
    let report = counter.record_frame(1017);
    assert_eq!(report, Some(4));
    assert_eq!(counter.frames, 0);
    assert_eq!(counter.last_second, 1017);
}

#[test]
fn standard_config_matches_startup_constants() {
    let config = Config::standard();
    assert_eq!(config.window_w, 800);
    assert_eq!(config.window_h, 600);
    assert_eq!(config.interval_ms, 16);
    assert_eq!(config.audio_channels, 32);
}

#[test]
fn channel_pool_doubles_after_failure() {
    assert_eq!(channels_after_failure(32), 64);
    assert_eq!(channels_after_failure(64), 128);
}

#[test]
fn key_states_follow_press_and_release() {
    let k = KeyState::Idle;
    let k = k.next_state(true, false);
    assert_eq!(k, KeyState::Pressed);
    assert!(k.is_down());
    assert!(k.is_just_pressed());
    let k = k.next_state(false, false);
    assert_eq!(k, KeyState::Held);
    assert!(k.is_down());
    assert!(!k.is_just_pressed());
    let k = k.next_state(false, true);
    assert_eq!(k, KeyState::Released);
    assert!(!k.is_down());
    let k = k.next_state(false, false);
    assert_eq!(k, KeyState::Idle);
}

#[test]
fn tap_within_one_frame_reads_as_released() {
    let k = KeyState::Idle.next_state(true, true);
    assert_eq!(k, KeyState::Released);
}

#[test]
fn pump_rebuilds_the_whole_snapshot() {
    let mut events = Events::new(3);
    assert!(!events.quit);
    assert_eq!(events.keys, vec![KeyState::Idle; 3]);

    events.pump(false, &vec![true, false, false], &vec![false, false, false]);
    assert_eq!(events.keys, vec![KeyState::Pressed, KeyState::Idle, KeyState::Idle]);

    events.pump(true, &vec![false, true, false], &vec![true, false, false]);
    assert!(events.quit);
    assert_eq!(events.keys, vec![KeyState::Released, KeyState::Pressed, KeyState::Idle]);

    // The quit flag is sticky for the life of the snapshot holder.
    events.pump(false, &vec![false, false, false], &vec![false, false, false]);
    assert!(events.quit);
    assert_eq!(events.keys, vec![KeyState::Idle, KeyState::Held, KeyState::Idle]);
}
