use obliqoro::settings::ModelSettings;
use obliqoro::state::{ApplicationState, AutoSwitch};

fn auto_settings() -> ModelSettings {
    ModelSettings {
        auto_pause_threshold: 5,
        auto_pause_timespan_sec: 5,
        auto_pause: true,
        auto_resume_threshold: 5,
        auto_resume_timespan_sec: 5,
        auto_resume: true,
        fullscreen: false,
        long_break_as_sec: 300,
        number_session_before_break: 4,
        session_as_sec: 1500,
        short_break_as_sec: 60,
    }
}

#[test]
fn no_average_until_window_filled() {
    // Samples are hundredths of a percent; the windows ask for 5 samples.
    let mut state = ApplicationState::new(auto_settings(), Vec::new(), 0);
    for i in 0..4u32 {
        let (measure, _) = state.record_cpu_sample(200 + i);
        assert_eq!(measure.pause, None);
        assert_eq!(measure.resume, None);
    }
    let (measure, _) = state.record_cpu_sample(204);
    assert!(measure.pause.is_some());
    assert!(measure.resume.is_some());
}

#[test]
fn fifth_low_sample_triggers_auto_pause() {
    // CPU at 2% for five seconds against a 5% threshold over a 5s window:
    // the fifth sample pauses; the first four report nothing.
    let mut state = ApplicationState::new(auto_settings(), Vec::new(), 0);
    for _ in 0..4 {
        let (_, switch) = state.record_cpu_sample(200);
        assert_eq!(switch, AutoSwitch::Neither);
    }
    let (measure, switch) = state.record_cpu_sample(200);
    assert_eq!(switch, AutoSwitch::Pause);
    assert_eq!(measure.pause, Some(200));
}

#[test]
fn auto_pause_and_resume_never_both() {
    // A history satisfying both windows at once: the paused state picks
    // resume, the running state picks pause — never both on one sample.
    let mut running = ApplicationState::new(auto_settings(), Vec::new(), 0);
    for _ in 0..5 {
        let (_, switch) = running.record_cpu_sample(500);
        assert!(switch == AutoSwitch::Neither || switch == AutoSwitch::Pause);
    }

    let mut paused = ApplicationState::new(auto_settings(), Vec::new(), 0);
    paused.toggle_pause(1);
    for _ in 0..5 {
        let (_, switch) = paused.record_cpu_sample(500);
        assert!(switch == AutoSwitch::Neither || switch == AutoSwitch::Resume);
    }
    let (_, switch) = paused.record_cpu_sample(500);
    assert_eq!(switch, AutoSwitch::Resume);
}

#[test]
fn high_load_does_not_auto_pause() {
    let mut state = ApplicationState::new(auto_settings(), Vec::new(), 0);
    for _ in 0..10 {
        // 80% is above the 5% pause threshold: never pause.
        let (_, switch) = state.record_cpu_sample(8000);
        assert_eq!(switch, AutoSwitch::Neither);
    }
}

#[test]
fn disabled_policy_never_triggers() {
    let mut settings = auto_settings();
    settings.auto_pause = false;
    settings.auto_resume = false;
    let mut state = ApplicationState::new(settings, Vec::new(), 0);
    for _ in 0..10 {
        let (_, switch) = state.record_cpu_sample(0);
        assert_eq!(switch, AutoSwitch::Neither);
    }
}

#[test]
fn policy_skipped_during_breaks() {
    let mut state = ApplicationState::new(auto_settings(), Vec::new(), 0);
    state.start_break_session(1);
    for _ in 0..10 {
        let (_, switch) = state.record_cpu_sample(0);
        assert_eq!(switch, AutoSwitch::Neither);
    }
}

#[test]
fn resume_needs_average_at_or_above_threshold() {
    let mut state = ApplicationState::new(auto_settings(), Vec::new(), 0);
    state.toggle_pause(1);
    // 4% average is below the 5% resume threshold: stay paused.
    for _ in 0..6 {
        let (_, switch) = state.record_cpu_sample(400);
        assert_eq!(switch, AutoSwitch::Neither);
    }
    // Exactly 5% reaches the threshold once the window holds only 500s.
    for _ in 0..4 {
        state.record_cpu_sample(500);
    }
    let (_, switch) = state.record_cpu_sample(500);
    assert_eq!(switch, AutoSwitch::Resume);
}

#[test]
fn averages_are_over_newest_samples() {
    let mut settings = auto_settings();
    settings.auto_pause_timespan_sec = 2;
    let mut state = ApplicationState::new(settings, Vec::new(), 0);
    state.record_cpu_sample(100);
    state.record_cpu_sample(200);
    let (measure, _) = state.record_cpu_sample(300);
    // The pause window holds the two newest samples: (300 + 200) / 2.
    assert_eq!(measure.pause, Some(250));
    assert_eq!(measure.current, 300);
    assert_eq!(state.calc_cpu_average(2), Some(250));
    assert_eq!(state.calc_cpu_average(3), Some(200));
    assert_eq!(state.calc_cpu_average(4), None);
    assert_eq!(state.calc_cpu_average(0), None);
}

#[test]
fn history_is_bounded_with_fifo_eviction() {
    let mut state = ApplicationState::new(auto_settings(), Vec::new(), 0);
    // Overfill the 900-sample history; the oldest sample is evicted.
    for i in 0..905u32 {
        state.record_cpu_sample(i);
    }
    assert_eq!(state.cpu_usage.len(), 900);
    assert_eq!(state.calc_cpu_average(1), Some(904));
    assert_eq!(*state.cpu_usage.back().unwrap(), 5);
}
