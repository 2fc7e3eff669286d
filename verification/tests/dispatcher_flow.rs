use obliqoro::dispatcher::{MessageHandler, TICK_PERIOD_MS, tick_sleep_ms};
use obliqoro::messages::{
    Action, BreakMessage, Emitter, InternalMessage, MenuEntry, ToFrontEnd, WindowAction,
    WindowVisibility, on_menu_entry,
};
use obliqoro::settings::{ModelSettings, SettingChange};
use obliqoro::state::{ApplicationState, BreakVariant, SessionStatus};
use obliqoro::text::format_sec_to_min;

fn work_settings() -> ModelSettings {
    ModelSettings {
        auto_pause_threshold: 5,
        auto_pause_timespan_sec: 300,
        auto_pause: false,
        auto_resume_threshold: 5,
        auto_resume_timespan_sec: 300,
        auto_resume: false,
        fullscreen: false,
        long_break_as_sec: 300,
        number_session_before_break: 4,
        session_as_sec: 1500,
        short_break_as_sec: 60,
    }
}

fn restart_ticks(actions: &[Action]) -> usize {
    actions.iter().filter(|a| matches!(a, Action::RestartTick)).count()
}

#[test]
fn shorter_session_restarts_scheduler_exactly_once() {
    // Replacing the settings with a shorter work session mid-countdown must
    // cancel and restart the scheduler task exactly once.
    let mut state = ApplicationState::new(work_settings(), Vec::new(), 0);
    let mut snapshot = state.get_state(false);
    snapshot.session_as_sec = 600;
    let actions = MessageHandler::handle_message(
        &mut state,
        InternalMessage::SetSetting(snapshot),
        100,
        false,
    );
    assert_eq!(restart_ticks(&actions), 1);
    assert_eq!(state.settings.session_as_sec, 600);
    // The countdown was rebased onto the new, shorter boundary.
    assert_eq!(state.current_timer_left(100), 600);

    // Applying the same snapshot again changes nothing and restarts nothing.
    let same = state.get_state(false);
    let actions = MessageHandler::handle_message(
        &mut state,
        InternalMessage::SetSetting(same),
        110,
        false,
    );
    assert_eq!(restart_ticks(&actions), 0);
}

#[test]
fn out_of_range_snapshot_is_rejected() {
    let mut state = ApplicationState::new(work_settings(), Vec::new(), 0);
    let mut snapshot = state.get_state(false);
    snapshot.number_session_before_break = 0;
    snapshot.session_as_sec = 42;
    let actions = MessageHandler::handle_message(
        &mut state,
        InternalMessage::SetSetting(snapshot),
        10,
        false,
    );
    assert!(actions.contains(&Action::Emit(ToFrontEnd::Error)));
    assert!(!actions.iter().any(|a| matches!(a, Action::PersistSettings(_))));
    // The previous valid settings are retained.
    assert_eq!(state.settings, work_settings());
}

#[test]
fn out_of_range_single_field_edit_is_rejected() {
    let mut state = ApplicationState::new(work_settings(), Vec::new(), 0);
    let actions = MessageHandler::handle_message(
        &mut state,
        InternalMessage::ChangeSetting(SettingChange::NumberSessions(0)),
        10,
        false,
    );
    assert!(actions.contains(&Action::Emit(ToFrontEnd::Error)));
    assert_eq!(state.settings, work_settings());
}

#[test]
fn single_field_edit_is_persisted() {
    let mut state = ApplicationState::new(work_settings(), Vec::new(), 0);
    let actions = MessageHandler::handle_message(
        &mut state,
        InternalMessage::ChangeSetting(SettingChange::FullScreen(true)),
        10,
        false,
    );
    assert!(state.settings.fullscreen);
    let mut expected = work_settings();
    expected.fullscreen = true;
    assert!(actions.contains(&Action::PersistSettings(expected)));
    assert_eq!(restart_ticks(&actions), 0);

    // An edit to the value already held does nothing but refresh the menu.
    let actions = MessageHandler::handle_message(
        &mut state,
        InternalMessage::ChangeSetting(SettingChange::FullScreen(true)),
        20,
        false,
    );
    assert!(!actions.iter().any(|a| matches!(a, Action::PersistSettings(_))));
}

#[test]
fn session_length_edit_restarts_scheduler() {
    let mut state = ApplicationState::new(work_settings(), Vec::new(), 0);
    let actions = MessageHandler::handle_message(
        &mut state,
        InternalMessage::ChangeSetting(SettingChange::SessionLength(900)),
        10,
        false,
    );
    assert_eq!(restart_ticks(&actions), 1);
    assert_eq!(state.settings.session_as_sec, 900);
    assert_eq!(state.current_timer_left(10), 900);
}

#[test]
fn reset_settings_restores_defaults() {
    let mut custom = work_settings();
    custom.session_as_sec = 100;
    custom.fullscreen = true;
    let mut state = ApplicationState::new(custom, Vec::new(), 0);
    let actions = MessageHandler::handle_message(
        &mut state,
        InternalMessage::ResetSettings,
        50,
        false,
    );
    assert_eq!(state.settings, ModelSettings::default());
    assert!(actions.contains(&Action::PersistSettings(ModelSettings::default())));
    assert_eq!(restart_ticks(&actions), 1);
    assert!(actions.contains(&Action::Emit(ToFrontEnd::Paused(false))));
}

#[test]
fn pause_message_updates_tray_icon_and_frontend() {
    let mut state = ApplicationState::new(work_settings(), Vec::new(), 0);
    let actions = MessageHandler::handle_message(&mut state, InternalMessage::Pause, 10, false);
    assert!(state.get_paused());
    assert_eq!(actions.len(), 3);
    match &actions[0] {
        Action::MenuSetPause { title, items_enabled } => {
            assert_eq!(title, "Resume");
            assert!(!*items_enabled);
        },
        other => panic!("unexpected action {other:?}"),
    }
    assert_eq!(actions[1], Action::SetIcon(true));
    assert_eq!(actions[2], Action::Emit(ToFrontEnd::Paused(true)));

    let actions = MessageHandler::handle_message(&mut state, InternalMessage::Pause, 20, false);
    assert!(!state.get_paused());
    match &actions[0] {
        Action::MenuSetPause { title, items_enabled } => {
            assert_eq!(title, "Pause");
            assert!(*items_enabled);
        },
        other => panic!("unexpected action {other:?}"),
    }
}

#[test]
fn break_start_shows_window_and_announces_timer() {
    let mut state = ApplicationState::new(work_settings(), Vec::new(), 0);
    let actions = MessageHandler::handle_message(
        &mut state,
        InternalMessage::Break(BreakMessage::Start),
        10,
        false,
    );
    assert_eq!(state.session_status, SessionStatus::Break(BreakVariant::Short));
    assert_eq!(
        actions,
        vec![
            Action::MenuSetEnabled(false),
            Action::Publish(InternalMessage::Emit(Emitter::Timer)),
            Action::Window(WindowAction::Show(false)),
        ],
    );
}

#[test]
fn break_end_returns_to_work() {
    let mut state = ApplicationState::new(work_settings(), Vec::new(), 0);
    state.start_break_session(10);
    let actions = MessageHandler::handle_message(
        &mut state,
        InternalMessage::Break(BreakMessage::End),
        70,
        false,
    );
    assert_eq!(state.session_status, SessionStatus::Work);
    assert_eq!(actions.len(), 6);
    assert_eq!(actions[0], Action::MenuSetEnabled(true));
    assert_eq!(actions[1], Action::Window(WindowAction::Hide(false)));
    assert_eq!(
        actions[3],
        Action::Emit(ToFrontEnd::NextBreak(String::from("next break in 25 minutes"))),
    );
}

#[test]
fn pause_after_break_starts_next_session_paused() {
    let mut state = ApplicationState::new(work_settings(), Vec::new(), 0);
    MessageHandler::handle_message(&mut state, InternalMessage::UpdatePause(true), 1, false);
    assert!(state.pause_after_break);
    state.start_break_session(10);
    let actions = MessageHandler::handle_message(
        &mut state,
        InternalMessage::Break(BreakMessage::End),
        70,
        false,
    );
    assert_eq!(
        actions,
        vec![
            Action::MenuSetEnabled(true),
            Action::Publish(InternalMessage::Pause),
            Action::Window(WindowAction::RemoveFullscreen),
        ],
    );
    assert!(!state.pause_after_break);
}

#[test]
fn window_requests_ignored_during_breaks() {
    let mut state = ApplicationState::new(work_settings(), Vec::new(), 0);
    state.start_break_session(10);
    for request in [WindowVisibility::Close, WindowVisibility::Hide, WindowVisibility::Toggle] {
        let actions = MessageHandler::handle_message(
            &mut state,
            InternalMessage::Window(request),
            20,
            false,
        );
        assert!(actions.is_empty());
    }
    // Show and Minimize go through even on a break.
    let actions = MessageHandler::handle_message(
        &mut state,
        InternalMessage::Window(WindowVisibility::Show),
        20,
        false,
    );
    assert_eq!(actions, vec![Action::Window(WindowAction::Show(false))]);
}

#[test]
fn close_request_exits_while_working() {
    let mut state = ApplicationState::new(work_settings(), Vec::new(), 0);
    let actions = MessageHandler::handle_message(
        &mut state,
        InternalMessage::Window(WindowVisibility::Close),
        5,
        false,
    );
    assert_eq!(actions, vec![Action::Window(WindowAction::Exit)]);
}

#[test]
fn heartbeat_drives_break_transition_at_zero() {
    let mut settings = work_settings();
    settings.session_as_sec = 2;
    let mut state = ApplicationState::new(settings, Vec::new(), 0);
    let actions = MessageHandler::handle_message(
        &mut state,
        InternalMessage::Heartbeat(None),
        1,
        false,
    );
    assert_eq!(actions, vec![Action::Publish(InternalMessage::UpdateMenuTimer)]);
    let actions = MessageHandler::handle_message(
        &mut state,
        InternalMessage::Heartbeat(None),
        2,
        false,
    );
    assert_eq!(
        actions,
        vec![
            Action::Publish(InternalMessage::UpdateMenuTimer),
            Action::Publish(InternalMessage::Break(BreakMessage::Start)),
        ],
    );
}

#[test]
fn heartbeat_on_break_reports_remaining_and_ends() {
    let mut state = ApplicationState::new(work_settings(), Vec::new(), 0);
    state.start_break_session(0);
    let actions = MessageHandler::handle_message(
        &mut state,
        InternalMessage::Heartbeat(None),
        10,
        false,
    );
    assert_eq!(actions, vec![Action::Emit(ToFrontEnd::OnBreak(50))]);
    let actions = MessageHandler::handle_message(
        &mut state,
        InternalMessage::Heartbeat(None),
        60,
        false,
    );
    assert_eq!(
        actions,
        vec![
            Action::Emit(ToFrontEnd::OnBreak(0)),
            Action::Publish(InternalMessage::Break(BreakMessage::End)),
        ],
    );
}

#[test]
fn heartbeat_does_nothing_while_paused() {
    let mut state = ApplicationState::new(work_settings(), Vec::new(), 0);
    state.toggle_pause(1);
    let actions = MessageHandler::handle_message(
        &mut state,
        InternalMessage::Heartbeat(None),
        5,
        false,
    );
    assert!(actions.is_empty());
}

#[test]
fn heartbeat_sample_reports_measurement() {
    let mut state = ApplicationState::new(work_settings(), Vec::new(), 0);
    let actions = MessageHandler::handle_message(
        &mut state,
        InternalMessage::Heartbeat(Some(1234)),
        1,
        false,
    );
    match &actions[0] {
        Action::Emit(ToFrontEnd::Cpu(measure)) => {
            assert_eq!(measure.current, 1234);
            assert_eq!(measure.pause, None);
            assert_eq!(measure.resume, None);
        },
        other => panic!("unexpected action {other:?}"),
    }
}

#[test]
fn auto_pause_publishes_pause_command() {
    let mut settings = work_settings();
    settings.auto_pause = true;
    settings.auto_pause_timespan_sec = 5;
    let mut state = ApplicationState::new(settings, Vec::new(), 0);
    for now in 1..=4u64 {
        let actions = MessageHandler::handle_message(
            &mut state,
            InternalMessage::Heartbeat(Some(200)),
            now,
            false,
        );
        assert!(!actions.contains(&Action::Publish(InternalMessage::Pause)));
    }
    let actions = MessageHandler::handle_message(
        &mut state,
        InternalMessage::Heartbeat(Some(200)),
        5,
        false,
    );
    assert!(actions.contains(&Action::Publish(InternalMessage::Pause)));
    assert!(actions.contains(&Action::Publish(InternalMessage::Emit(Emitter::Settings))));
}

#[test]
fn emitter_payloads_follow_state() {
    let mut state = ApplicationState::new(work_settings(), Vec::new(), 0);
    let actions = MessageHandler::handle_emitter(&state, Emitter::Paused, 0, false);
    assert_eq!(actions, vec![Action::Emit(ToFrontEnd::Paused(false))]);

    let actions = MessageHandler::handle_emitter(&state, Emitter::NextBreak, 0, false);
    assert_eq!(
        actions,
        vec![Action::Emit(ToFrontEnd::NextBreak(String::from("next break in 25 minutes")))],
    );

    let actions = MessageHandler::handle_emitter(&state, Emitter::SessionsBeforeLong, 0, false);
    assert_eq!(
        actions,
        vec![Action::Emit(ToFrontEnd::SessionsBeforeLong(String::from(
            "next long break after 4 sessions",
        )))],
    );

    let actions = MessageHandler::handle_emitter(&state, Emitter::Settings, 0, true);
    match &actions[0] {
        Action::Emit(ToFrontEnd::GetSettings(snapshot)) => {
            assert!(snapshot.start_on_boot);
            assert_eq!(snapshot.session_as_sec, 1500);
        },
        other => panic!("unexpected action {other:?}"),
    }

    // The settings page request is honoured while working...
    let actions = MessageHandler::handle_emitter(&state, Emitter::GoToSettings, 0, false);
    assert_eq!(
        actions,
        vec![
            Action::Emit(ToFrontEnd::GoToSettings),
            Action::Window(WindowAction::Toggle(false)),
        ],
    );
    // ...and refused during a break.
    state.start_break_session(1);
    let actions = MessageHandler::handle_emitter(&state, Emitter::GoToSettings, 1, false);
    assert!(actions.is_empty());
}

#[test]
fn go_to_timer_carries_fullscreen_and_interval() {
    let mut settings = work_settings();
    settings.fullscreen = true;
    let mut state = ApplicationState::new(
        settings,
        vec![String::from("Repetition is a form of change")],
        0,
    );
    state.start_break_session(0);
    let actions = MessageHandler::handle_emitter(&state, Emitter::Timer, 0, false);
    assert_eq!(actions[0], Action::Emit(ToFrontEnd::Fullscreen(true)));
    match &actions[1] {
        Action::Emit(ToFrontEnd::GoToTimer(show)) => {
            assert_eq!(show.interval, 60);
            assert_eq!(show.strategy, "Repetition is a form of change");
        },
        other => panic!("unexpected action {other:?}"),
    }
}

#[test]
fn menu_refresh_updates_tray_and_frontend() {
    let mut state = ApplicationState::new(work_settings(), Vec::new(), 0);
    let actions = MessageHandler::handle_message(
        &mut state,
        InternalMessage::UpdateMenuTimer,
        0,
        false,
    );
    assert_eq!(actions.len(), 4);
    assert_eq!(
        actions[0],
        Action::MenuSetNextBreakTitle(String::from("next break in 25 minutes")),
    );
    assert_eq!(
        actions[2],
        Action::MenuSetSessionTitle(String::from("next long break after 4 sessions")),
    );
}

#[test]
fn update_timer_check_message_requests_fetch() {
    let mut state = ApplicationState::new(work_settings(), Vec::new(), 0);
    let week = 60 * 60 * 24 * 7;
    let actions = MessageHandler::handle_message(
        &mut state,
        InternalMessage::UpdateTimerCheck,
        10,
        false,
    );
    assert!(actions.is_empty());
    let actions = MessageHandler::handle_message(
        &mut state,
        InternalMessage::UpdateTimerCheck,
        week,
        false,
    );
    assert_eq!(actions, vec![Action::FetchUpdates]);
}

#[test]
fn open_location_is_delegated() {
    let mut state = ApplicationState::new(work_settings(), Vec::new(), 0);
    let actions = MessageHandler::handle_message(
        &mut state,
        InternalMessage::OpenLocation,
        1,
        false,
    );
    assert_eq!(actions, vec![Action::OpenDataLocation]);
}

#[test]
fn reset_timer_message_restarts_scheduler() {
    let mut state = ApplicationState::new(work_settings(), Vec::new(), 0);
    let actions = MessageHandler::handle_message(
        &mut state,
        InternalMessage::ResetTimer,
        25,
        false,
    );
    assert_eq!(actions, vec![Action::RestartTick]);
    assert_eq!(state.current_timer_left(25), 1500);
}

#[test]
fn tick_sleep_subtracts_time_spent() {
    assert_eq!(TICK_PERIOD_MS, 250);
    assert_eq!(tick_sleep_ms(0), 250);
    assert_eq!(tick_sleep_ms(100), 150);
    assert_eq!(tick_sleep_ms(250), 0);
    assert_eq!(tick_sleep_ms(10_000), 0);
}

#[test]
fn fuzzy_minutes_formatting() {
    assert_eq!(format_sec_to_min(0), "less than 1 minute");
    assert_eq!(format_sec_to_min(60), "less than 1 minute");
    assert_eq!(format_sec_to_min(61), "2 minutes");
    assert_eq!(format_sec_to_min(120), "2 minutes");
    assert_eq!(format_sec_to_min(121), "3 minutes");
    assert_eq!(format_sec_to_min(1500), "25 minutes");
    assert_eq!(format_sec_to_min(65535), "1093 minutes");
}

#[test]
fn session_titles() {
    let mut state = ApplicationState::new(work_settings(), Vec::new(), 0);
    assert_eq!(state.get_sessions_before_long_title(), "next long break after 4 sessions");
    state.start_break_session(1);
    state.start_break_session(2);
    state.start_break_session(3);
    // One session left: the next break is the long one.
    assert_eq!(state.get_sessions_before_long_title(), "next long break after current session");
}

#[test]
fn menu_entry_ids_and_titles() {
    assert_eq!(MenuEntry::Session.get_id(), "session");
    assert_eq!(MenuEntry::Next.get_id(), "next");
    assert_eq!(MenuEntry::Pause.get_id(), "pause");
    assert_eq!(MenuEntry::Quit.get_id(), "quit");
    assert_eq!(MenuEntry::Settings.get_id(), "settings");
    assert_eq!(MenuEntry::Session.as_str(), "session");
    assert_eq!(MenuEntry::Next.as_str(), "loading...");
    assert_eq!(MenuEntry::Pause.as_str(), "Pause");
    assert_eq!(MenuEntry::Quit.as_str(), "Quit");
    assert_eq!(MenuEntry::Settings.as_str(), "Settings");
}

#[test]
fn menu_clicks_map_to_messages() {
    assert_eq!(
        on_menu_entry(MenuEntry::Settings),
        Some(InternalMessage::Emit(Emitter::GoToSettings)),
    );
    assert_eq!(
        on_menu_entry(MenuEntry::Quit),
        Some(InternalMessage::Window(WindowVisibility::Close)),
    );
    assert_eq!(on_menu_entry(MenuEntry::Pause), Some(InternalMessage::Pause));
    assert_eq!(on_menu_entry(MenuEntry::Session), None);
    assert_eq!(on_menu_entry(MenuEntry::Next), None);
}

#[test]
fn frontend_event_names() {
    assert_eq!(ToFrontEnd::Error.as_str(), "error");
    assert_eq!(ToFrontEnd::GoToSettings.as_str(), "goto::settings");
    assert_eq!(ToFrontEnd::PackageInfo.as_str(), "package-info");
    assert_eq!(ToFrontEnd::Paused(true).as_str(), "paused");
    assert_eq!(ToFrontEnd::OnBreak(1).as_str(), "on-break");
    assert_eq!(ToFrontEnd::Fullscreen(true).as_str(), "fullscreen");
    assert_eq!(ToFrontEnd::NextBreak(String::new()).as_str(), "next-break");
    assert_eq!(ToFrontEnd::SessionsBeforeLong(String::new()).as_str(), "sessions-before-long");
}

#[test]
fn break_variant_names() {
    assert_eq!(BreakVariant::Short.as_str(), "short");
    assert_eq!(BreakVariant::Long.as_str(), "long");
}
