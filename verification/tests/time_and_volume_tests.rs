use spotmpd::queue::Queue;
use spotmpd::respot::player_worker::{PlayerWorker, SessionAction};
use spotmpd::respot::{PlayerCommand, PlayerEvent};

#[test]
fn progress_accumulates_while_playing() {
    let mut q = Queue::new();
    q.handle_event(PlayerEvent::Playing, 10_000);
    assert_eq!(q.get_status(), PlayerEvent::Playing);
    assert_eq!(q.get_current_progress(12_500), 2_500);
}

#[test]
fn pause_then_resume_preserves_elapsed_time() {
    let mut q = Queue::new();
    q.handle_event(PlayerEvent::Playing, 10_000);
    let before_pause = q.get_current_progress(14_000);
    q.handle_event(PlayerEvent::Paused, 14_000);
    // while paused the elapsed time is frozen
    assert_eq!(q.get_current_progress(90_000), before_pause);
    q.handle_event(PlayerEvent::Playing, 100_000);
    // after the resume only time actually spent playing counts
    assert_eq!(q.get_current_progress(100_700), before_pause + 700);
}

#[test]
fn stopped_event_clears_elapsed_state() {
    let mut q = Queue::new();
    q.handle_event(PlayerEvent::Playing, 10_000);
    q.handle_event(PlayerEvent::Stopped, 20_000);
    assert_eq!(q.get_status(), PlayerEvent::Stopped);
    assert_eq!(q.get_current_progress(30_000), 0);
}

#[test]
fn volume_curve_full_input_is_maximum_gain() {
    assert_eq!(PlayerWorker::calc_logarithmic_volume(100), 65_535);
    // inputs above the scale saturate
    assert_eq!(PlayerWorker::calc_logarithmic_volume(60_000), 65_535);
}

#[test]
fn volume_curve_zero_input_is_under_one_percent_of_maximum() {
    let low = PlayerWorker::calc_logarithmic_volume(0);
    assert_eq!(low, 65);
    assert!((low as u32) * 100 < 65_535);
}

#[test]
fn volume_curve_is_monotonic_over_the_whole_scale() {
    let mut prev = PlayerWorker::calc_logarithmic_volume(0);
    for v in 1..=100u16 {
        let g = PlayerWorker::calc_logarithmic_volume(v);
        assert!(g >= prev, "curve dipped at input {}", v);
        prev = g;
    }
}

#[test]
fn volume_curve_midpoint_value() {
    assert_eq!(PlayerWorker::calc_logarithmic_volume(50), 2_072);
}

#[test]
fn worker_turns_directives_into_session_actions_and_events() {
    let mut w = PlayerWorker::new();
    assert_eq!(
        w.handle_event(PlayerCommand::Load("abc".to_string())),
        (Some(SessionAction::LoadTrack("abc".to_string())), None)
    );
    assert_eq!(
        w.handle_event(PlayerCommand::Play),
        (
            Some(SessionAction::StartPlayback),
            Some(PlayerEvent::Playing)
        )
    );
    assert!(w.active);
    assert_eq!(
        w.handle_event(PlayerCommand::Pause),
        (
            Some(SessionAction::PausePlayback),
            Some(PlayerEvent::Paused)
        )
    );
    assert!(!w.active);
    // stop emits no event: stopped status is driven queue-side
    assert_eq!(
        w.handle_event(PlayerCommand::Stop),
        (Some(SessionAction::StopPlayback), None)
    );
    assert_eq!(
        w.handle_event(PlayerCommand::SetVolume(100)),
        (Some(SessionAction::SetMixerGain(65_535)), None)
    );
    assert_eq!(w.handle_event(PlayerCommand::Seek(5)), (None, None));
}
