//! The dispatcher: the single consumer of the command bus and the only writer
//! of `ApplicationState`. Each step takes one inbound message and the current
//! instant, mutates the state, and returns the side effects — in order — for
//! the platform layer to perform. Serializing every mutation through this one
//! step gives a total order of state transitions.
//!
//! Settings edits are applied optimistically: the in-memory snapshot is
//! updated first and a persistence request is handed back; when the store
//! fails, the platform publishes `Emit(SendError)` and the in-memory settings
//! stand.

use vstd::prelude::*;

use crate::cpu;
use crate::cpu::{CPU_VECDEQUE_LEN, CpuMeasure};
use crate::menu;
use crate::menu::MenuManipulation;
use crate::messages::{
    Action, BreakMessage, Emitter, InternalMessage, ToFrontEnd, WindowAction, WindowVisibility,
};
use crate::settings::{FrontEndState, ModelSettings, SettingChange};
use crate::state::{
    ApplicationState, AutoSwitch, SessionStatus, ShowTimer, next_break_count, next_break_variant,
};
use crate::timer::Timer;

verus! {

/// The scheduler's tick period, in milliseconds.
pub const TICK_PERIOD_MS: u64 = 250;

/// How long the scheduler should sleep after spending `elapsed_ms` of the
/// current tick period on work: the remainder of the period, so the loop does
/// not drift under load; nothing once the tick overran the period.
pub fn tick_sleep_ms(elapsed_ms: u64) -> (r: u64)
    ensures
        r == TICK_PERIOD_MS.saturating_sub(elapsed_ms),
{
    TICK_PERIOD_MS.saturating_sub(elapsed_ms)
}

/// How many scheduler restarts an action list demands.
pub open spec fn restart_count(s: Seq<Action>) -> int
    decreases s.len(),
{
    if s.len() == 0 {
        0
    } else {
        restart_count(s.drop_last()) + if s.last() is RestartTick {
            1int
        } else {
            0int
        }
    }
}

pub broadcast proof fn lemma_restart_count_push(s: Seq<Action>, a: Action)
    ensures
        #[trigger] restart_count(s.push(a)) == restart_count(s) + if a is RestartTick {
            1int
        } else {
            0int
        },
{
    assert(s.push(a).drop_last() =~= s);
}

pub broadcast proof fn lemma_restart_count_append(s: Seq<Action>, t: Seq<Action>)
    ensures
        #[trigger] restart_count(s + t) == restart_count(s) + restart_count(t),
    decreases t.len(),
{
    if t.len() == 0 {
        assert(s + t =~= s);
    } else {
        assert((s + t).drop_last() =~= s + t.drop_last());
        lemma_restart_count_append(s, t.drop_last());
    }
}

proof fn lemma_restart_count_none(s: Seq<Action>)
    requires
        forall|i: int| 0 <= i < s.len() ==> !(#[trigger] s[i] is RestartTick),
    ensures
        restart_count(s) == 0,
    decreases s.len(),
{
    if s.len() > 0 {
        lemma_restart_count_none(s.drop_last());
    }
}

/// The short-break counter after installing `settings`: unchanged while below
/// the new long-break threshold, else clamped to just below it.
pub open spec fn clamped_count(count: u8, settings: ModelSettings) -> u8 {
    if (count as int) < (settings.number_session_before_break as int) {
        count
    } else {
        (settings.number_session_before_break - 1) as u8
    }
}

/// The frontend snapshot carried by a settings notification.
pub open spec fn snapshot_spec(state: ApplicationState, start_on_boot: bool) -> FrontEndState {
    FrontEndState {
        auto_pause_threshold: state.settings.auto_pause_threshold,
        auto_pause_timespan_sec: state.settings.auto_pause_timespan_sec,
        auto_pause: state.settings.auto_pause,
        auto_resume_threshold: state.settings.auto_resume_threshold,
        auto_resume_timespan_sec: state.settings.auto_resume_timespan_sec,
        auto_resume: state.settings.auto_resume,
        fullscreen: state.settings.fullscreen,
        long_break_as_sec: state.settings.long_break_as_sec,
        number_session_before_break: state.settings.number_session_before_break,
        paused: state.timer.is_paused_spec(),
        session_as_sec: state.settings.session_as_sec,
        short_break_as_sec: state.settings.short_break_as_sec,
        start_on_boot,
    }
}

/// The window commands owed for a visibility request: hiding, toggling and
/// closing are ignored during a break — the break window must stay up.
pub open spec fn visibility_actions(on_break: bool, v: WindowVisibility) -> Seq<Action> {
    match v {
        WindowVisibility::Close => if !on_break {
            seq![Action::Window(WindowAction::Exit)]
        } else {
            Seq::<Action>::empty()
        },
        WindowVisibility::Hide => if !on_break {
            seq![Action::Window(WindowAction::Hide(false))]
        } else {
            Seq::<Action>::empty()
        },
        WindowVisibility::Minimize => seq![Action::Window(WindowAction::Hide(false))],
        WindowVisibility::Show => seq![Action::Window(WindowAction::Show(false))],
        WindowVisibility::Toggle => if !on_break {
            seq![Action::Window(WindowAction::Toggle(false))]
        } else {
            Seq::<Action>::empty()
        },
    }
}

/// The actions owed for an emit request over state `s`: opening the settings
/// page is refused during a break; the frontend payloads are computed from
/// `s`, and `start_on_boot` fills the one field the state does not own.
pub open spec fn emitter_actions_ok(
    s: ApplicationState,
    emitter: Emitter,
    now: u64,
    start_on_boot: bool,
    r: Seq<Action>,
) -> bool {
    match emitter {
        Emitter::GoToSettings => if s.on_break_spec() {
            r =~= Seq::<Action>::empty()
        } else {
            r =~= seq![
                Action::Emit(ToFrontEnd::GoToSettings),
                Action::Window(WindowAction::Toggle(false)),
            ]
        },
        Emitter::NextBreak => r.len() == 1 && menu::emits_next_break(r[0], s.remaining_spec(now)),
        Emitter::OnBreak => r =~= seq![Action::Emit(ToFrontEnd::OnBreak(s.remaining_spec(now)))],
        Emitter::PackageInfo => r =~= seq![Action::Emit(ToFrontEnd::PackageInfo)],
        Emitter::Paused => r =~= seq![Action::Emit(ToFrontEnd::Paused(s.timer.is_paused_spec()))],
        Emitter::SendError => r =~= seq![Action::Emit(ToFrontEnd::Error)],
        Emitter::SessionsBeforeLong => r.len() == 1 && menu::emits_sessions_before_long(
            r[0],
            menu::sessions_left_spec(s),
        ),
        Emitter::Settings => r =~= seq![
            Action::Emit(ToFrontEnd::GetSettings(snapshot_spec(s, start_on_boot))),
        ],
        Emitter::Timer => {
            &&& r.len() == 2
            &&& r[0] == Action::Emit(ToFrontEnd::Fullscreen(s.settings.fullscreen))
            &&& (r[1] matches Action::Emit(ToFrontEnd::GoToTimer(show)) && {
                &&& show.interval == s.remaining_spec(now)
                &&& s.strategies@.len() == 0 ==> show.strategy@ == Seq::<char>::empty()
                &&& s.strategies@.len() > 0 ==> exists|i: int|
                    0 <= i < s.strategies@.len() && show.strategy@ == s.strategies@[i]@
            })
        },
    }
}

/// The actions owed for a pause toggle that left the timer paused or running
/// as `paused` says: the tray entry, the tray icon, and the frontend flag.
pub open spec fn pause_actions_ok(paused: bool, r: Seq<Action>) -> bool {
    &&& r.len() == 3
    &&& menu::sets_pause_menu(r[0], paused)
    &&& r[1] == Action::SetIcon(paused)
    &&& r[2] == Action::Emit(ToFrontEnd::Paused(paused))
}

/// The full tray-and-frontend title refresh over state `t`.
pub open spec fn menu_refresh_ok(t: ApplicationState, now: u64, r: Seq<Action>) -> bool {
    &&& r.len() == 4
    &&& menu::sets_next_break_title(r[0], t.remaining_spec(now))
    &&& menu::emits_next_break(r[1], t.remaining_spec(now))
    &&& menu::sets_session_title(r[2], menu::sessions_left_spec(t))
    &&& menu::emits_sessions_before_long(r[3], menu::sessions_left_spec(t))
}

/// The actions owed for a break transition from state `s` to state `t`.
/// Starting: disable the menu, publish the break-screen request, show the
/// window. Ending with `pause_after_break` set: re-enable the menu, publish a
/// pause, drop fullscreen; ending without it: re-enable, hide, refresh titles.
pub open spec fn break_actions_ok(
    s: ApplicationState,
    t: ApplicationState,
    break_message: BreakMessage,
    now: u64,
    r: Seq<Action>,
) -> bool {
    match break_message {
        BreakMessage::Start => r =~= seq![
            Action::MenuSetEnabled(false),
            Action::Publish(InternalMessage::Emit(Emitter::Timer)),
            Action::Window(WindowAction::Show(s.settings.fullscreen)),
        ],
        BreakMessage::End => if s.pause_after_break {
            r =~= seq![
                Action::MenuSetEnabled(true),
                Action::Publish(InternalMessage::Pause),
                Action::Window(WindowAction::RemoveFullscreen),
            ]
        } else {
            &&& r.len() == 6
            &&& r[0] == Action::MenuSetEnabled(true)
            &&& r[1] == Action::Window(WindowAction::Hide(s.settings.fullscreen))
            &&& menu_refresh_ok(t, now, r.subrange(2, 6))
        },
    }
}

/// The reading and trailing averages reported for one sample, computed over
/// the history with the sample already recorded.
pub open spec fn measure_spec(s: ApplicationState, sample: u32) -> CpuMeasure {
    CpuMeasure {
        current: sample,
        pause: cpu::cpu_average_spec(s.cpu_usage@, s.settings.auto_pause_timespan_sec),
        resume: cpu::cpu_average_spec(s.cpu_usage@, s.settings.auto_resume_timespan_sec),
    }
}

/// The actions owed for one recorded CPU sample, over the state with the
/// sample already recorded: when the policy fires — either direction — a
/// pause command and a settings refresh are published; the measurement is
/// reported either way.
pub open spec fn cpu_actions(s: ApplicationState, sample: u32) -> Seq<Action> {
    (if s.auto_switch_spec() is Neither {
        Seq::<Action>::empty()
    } else {
        seq![
            Action::Publish(InternalMessage::Pause),
            Action::Publish(InternalMessage::Emit(Emitter::Settings)),
        ]
    }) + seq![Action::Emit(ToFrontEnd::Cpu(measure_spec(s, sample)))]
}

/// The countdown bookkeeping owed on a tick: nothing while paused; on a break,
/// the remaining break seconds go to the frontend and the break ends when they
/// reach zero; in a work session, the menu countdown is refreshed and a break
/// starts when the seconds reach zero.
pub open spec fn tick_actions(s: ApplicationState, now: u64) -> Seq<Action> {
    if s.timer.is_paused_spec() {
        Seq::<Action>::empty()
    } else if s.on_break_spec() {
        seq![Action::Emit(ToFrontEnd::OnBreak(s.remaining_spec(now)))] + (if s.remaining_spec(now)
            < 1 {
            seq![Action::Publish(InternalMessage::Break(BreakMessage::End))]
        } else {
            Seq::<Action>::empty()
        })
    } else {
        seq![Action::Publish(InternalMessage::UpdateMenuTimer)] + (if s.remaining_spec(now) < 1 {
            seq![Action::Publish(InternalMessage::Break(BreakMessage::Start))]
        } else {
            Seq::<Action>::empty()
        })
    }
}

/// The history view after recording one sample.
pub open spec fn pushed_history(h: Seq<u32>, sample: u32) -> Seq<u32> {
    if h.len() < CPU_VECDEQUE_LEN {
        seq![sample] + h
    } else {
        seq![sample] + h.subrange(0, CPU_VECDEQUE_LEN - 1)
    }
}

/// The actions owed for one heartbeat over old state `s` and new state `t`.
pub open spec fn heartbeat_actions_ok(
    s: ApplicationState,
    t: ApplicationState,
    cpu_usage: Option<u32>,
    now: u64,
    r: Seq<Action>,
) -> bool {
    match cpu_usage {
        None => r =~= tick_actions(s, now),
        Some(sample) => r =~= cpu_actions(t, sample) + tick_actions(t, now),
    }
}

/// The state after a settings reset: default settings, counter clamped under
/// them, the countdown restarted (paused status kept).
pub open spec fn reset_state_spec(s: ApplicationState, now: u64) -> ApplicationState {
    ApplicationState {
        settings: ModelSettings::default_spec(),
        session_count: clamped_count(s.session_count, ModelSettings::default_spec()),
        timer: s.timer.reset_spec(now),
        time: now,
        ..s
    }
}

/// The actions owed for a settings reset: persist the default, restart the
/// scheduler, and hand the frontend the fresh snapshot and paused flag.
pub open spec fn reset_actions_ok(
    t: ApplicationState,
    start_on_boot: bool,
    r: Seq<Action>,
) -> bool {
    r =~= seq![
        Action::PersistSettings(ModelSettings::default_spec()),
        Action::RestartTick,
        Action::Emit(ToFrontEnd::GetSettings(snapshot_spec(t, start_on_boot))),
        Action::Emit(ToFrontEnd::Paused(t.timer.is_paused_spec())),
    ]
}

/// The state after a single-field settings edit: the default-reset path for
/// `Reset`; unchanged when the field already holds the value or the edit is
/// out of range; else the edited snapshot, with the counter clamped and — for
/// a new work-session length — the countdown restarted.
pub open spec fn setting_change_state(
    s: ApplicationState,
    change: SettingChange,
    now: u64,
) -> ApplicationState {
    let new = s.settings.with_change_spec(change);
    if change is Reset {
        reset_state_spec(s, now)
    } else if new == s.settings || !new.valid() {
        s
    } else if change is SessionLength {
        ApplicationState {
            settings: new,
            session_count: clamped_count(s.session_count, new),
            timer: s.timer.reset_spec(now),
            time: now,
            ..s
        }
    } else {
        ApplicationState { settings: new, session_count: clamped_count(s.session_count, new), ..s }
    }
}

/// The actions owed for a single-field settings edit (the menu refresh that
/// follows every settings message is appended by the dispatcher): nothing when
/// the value already stands; an error notification — previous settings
/// retained — when it is out of range; else a persistence request, with a
/// scheduler restart when the work-session length changed.
pub open spec fn setting_change_actions_ok(
    s: ApplicationState,
    t: ApplicationState,
    change: SettingChange,
    start_on_boot: bool,
    r: Seq<Action>,
) -> bool {
    let new = s.settings.with_change_spec(change);
    if change is Reset {
        reset_actions_ok(t, start_on_boot, r)
    } else if new == s.settings {
        r =~= Seq::<Action>::empty()
    } else if !new.valid() {
        r =~= seq![Action::Emit(ToFrontEnd::Error)]
    } else if change is SessionLength {
        r =~= seq![Action::PersistSettings(new), Action::RestartTick]
    } else {
        r =~= seq![Action::PersistSettings(new)]
    }
}

/// The state after applying a full frontend snapshot: unchanged when the
/// snapshot is out of range; else the carried settings, with the counter
/// clamped and — for a new work-session length — the countdown restarted.
pub open spec fn set_setting_state(
    s: ApplicationState,
    frontend_state: FrontEndState,
    now: u64,
) -> ApplicationState {
    let new = ModelSettings::of_frontend_spec(frontend_state);
    if !new.valid() {
        s
    } else if frontend_state.session_as_sec != s.settings.session_as_sec {
        ApplicationState {
            settings: new,
            session_count: clamped_count(s.session_count, new),
            timer: s.timer.reset_spec(now),
            time: now,
            ..s
        }
    } else {
        ApplicationState { settings: new, session_count: clamped_count(s.session_count, new), ..s }
    }
}

/// The actions owed for applying a full frontend snapshot: an error
/// notification — previous settings retained — when it is out of range; else
/// the auto-launch registration, a persistence request, and a scheduler
/// restart when the work-session length changed.
pub open spec fn set_setting_actions_ok(
    s: ApplicationState,
    frontend_state: FrontEndState,
    r: Seq<Action>,
) -> bool {
    let new = ModelSettings::of_frontend_spec(frontend_state);
    if !new.valid() {
        r =~= seq![Action::Emit(ToFrontEnd::Error)]
    } else if frontend_state.session_as_sec != s.settings.session_as_sec {
        r =~= seq![
            Action::SetAutoLaunch(frontend_state.start_on_boot),
            Action::PersistSettings(new),
            Action::RestartTick,
        ]
    } else {
        r =~= seq![
            Action::SetAutoLaunch(frontend_state.start_on_boot),
            Action::PersistSettings(new),
        ]
    }
}

/// How many scheduler restarts message `msg` owes over state `s`: exactly one
/// for a timer reset, a settings reset, or a settings change that alters the
/// active work-session length — never more, so no two scheduler tasks can be
/// started by one step.
pub open spec fn restarts_expected(s: ApplicationState, msg: InternalMessage) -> int {
    match msg {
        InternalMessage::ChangeSetting(change) => {
            let new = s.settings.with_change_spec(change);
            if change is Reset {
                1int
            } else if change is SessionLength && new != s.settings && new.valid() {
                1int
            } else {
                0int
            }
        },
        InternalMessage::ResetSettings => 1,
        InternalMessage::ResetTimer => 1,
        InternalMessage::SetSetting(frontend_state) => {
            let new = ModelSettings::of_frontend_spec(frontend_state);
            if new.valid() && frontend_state.session_as_sec != s.settings.session_as_sec {
                1int
            } else {
                0int
            }
        },
        _ => 0,
    }
}

/// The state after one dispatch step. Messages that only read or emit leave
/// the state as it stands; the heartbeat's new history is pinned by
/// `pushed_history` at the step itself.
pub open spec fn state_transition_ok(
    s: ApplicationState,
    t: ApplicationState,
    msg: InternalMessage,
    now: u64,
) -> bool {
    match msg {
        InternalMessage::Break(BreakMessage::Start) => t == (ApplicationState {
            session_status: SessionStatus::Break(
                next_break_variant(s.session_count, s.settings.number_session_before_break),
            ),
            session_count: next_break_count(
                s.session_count,
                s.settings.number_session_before_break,
            ),
            timer: Timer::Work(now),
            time: now,
            ..s
        }),
        InternalMessage::Break(BreakMessage::End) => t == (ApplicationState {
            session_status: SessionStatus::Work,
            timer: Timer::Work(now),
            time: now,
            pause_after_break: false,
            ..s
        }),
        InternalMessage::ChangeSetting(change) => t == setting_change_state(s, change, now),
        InternalMessage::Emit(_) => t == s,
        InternalMessage::Heartbeat(cpu_usage) => match cpu_usage {
            None => t == s,
            Some(sample) => t == (ApplicationState { cpu_usage: t.cpu_usage, ..s })
                && t.cpu_usage@ == pushed_history(s.cpu_usage@, sample),
        },
        InternalMessage::OpenLocation => t == s,
        InternalMessage::Pause => t == (ApplicationState {
            timer: s.timer.toggle_spec(now),
            time: now,
            ..s
        }),
        InternalMessage::ResetSettings => t == reset_state_spec(s, now),
        InternalMessage::ResetTimer => t == (ApplicationState {
            timer: s.timer.reset_spec(now),
            time: now,
            ..s
        }),
        InternalMessage::SetSetting(frontend_state) => t == set_setting_state(
            s,
            frontend_state,
            now,
        ),
        InternalMessage::UpdateMenuTimer => t == s,
        InternalMessage::UpdatePause(pause) => t == (ApplicationState {
            pause_after_break: pause,
            ..s
        }),
        InternalMessage::UpdateTimerCheck => t == (ApplicationState {
            start_time: if now - s.start_time >= crate::state::ONE_WEEK_AS_SEC {
                now
            } else {
                s.start_time
            },
            time: now,
            ..s
        }),
        InternalMessage::Window(_) => t == s,
    }
}

pub struct MessageHandler;

impl MessageHandler {
    /// Handle a window-visibility request.
    pub fn handle_visibility(state: &ApplicationState, window_visibility: WindowVisibility) -> (r:
        Vec<Action>)
        ensures
            r@ =~= visibility_actions(state.on_break_spec(), window_visibility),
            restart_count(r@) == 0,
    {
        broadcast use lemma_restart_count_push;

        let on_break = state.get_on_break();
        let mut actions: Vec<Action> = Vec::new();
        match window_visibility {
            WindowVisibility::Close => {
                if !on_break {
                    actions.push(Action::Window(WindowAction::Exit));
                }
            },
            WindowVisibility::Hide => {
                if !on_break {
                    actions.push(Action::Window(WindowAction::Hide(false)));
                }
            },
            WindowVisibility::Minimize => {
                actions.push(Action::Window(WindowAction::Hide(false)));
            },
            WindowVisibility::Show => {
                actions.push(Action::Window(WindowAction::Show(false)));
            },
            WindowVisibility::Toggle => {
                if !on_break {
                    actions.push(Action::Window(WindowAction::Toggle(false)));
                }
            },
        }
        actions
    }

    /// Handle a request to notify the frontend, computing the payload from
    /// the current state. `start_on_boot` is the platform's current
    /// auto-launch status, reported inside the settings snapshot.
    pub fn handle_emitter(
        state: &ApplicationState,
        emitter: Emitter,
        now: u64,
        start_on_boot: bool,
    ) -> (r: Vec<Action>)
        requires
            state.inv(),
            state.time <= now,
        ensures
            restart_count(r@) == 0,
            emitter_actions_ok(*state, emitter, now, start_on_boot, r@),
    {
        broadcast use lemma_restart_count_push;

        let mut actions: Vec<Action> = Vec::new();
        match emitter {
            Emitter::GoToSettings => {
                if !state.get_on_break() {
                    actions.push(Action::Emit(ToFrontEnd::GoToSettings));
                    actions.push(Action::Window(WindowAction::Toggle(false)));
                }
            },
            Emitter::NextBreak => {
                actions.push(Action::Emit(ToFrontEnd::NextBreak(state.get_next_break_title(now))));
            },
            Emitter::OnBreak => {
                actions.push(Action::Emit(ToFrontEnd::OnBreak(state.current_timer_left(now))));
            },
            Emitter::PackageInfo => {
                actions.push(Action::Emit(ToFrontEnd::PackageInfo));
            },
            Emitter::Paused => {
                actions.push(Action::Emit(ToFrontEnd::Paused(state.get_paused())));
            },
            Emitter::SendError => {
                actions.push(Action::Emit(ToFrontEnd::Error));
            },
            Emitter::SessionsBeforeLong => {
                actions.push(
                    Action::Emit(
                        ToFrontEnd::SessionsBeforeLong(state.get_sessions_before_long_title()),
                    ),
                );
            },
            Emitter::Settings => {
                actions.push(Action::Emit(ToFrontEnd::GetSettings(state.get_state(start_on_boot))));
            },
            Emitter::Timer => {
                let (break_time, strategy) = state.get_break_settings(now);
                actions.push(Action::Emit(ToFrontEnd::Fullscreen(state.get_fullscreen())));
                actions.push(
                    Action::Emit(ToFrontEnd::GoToTimer(ShowTimer::new(break_time, strategy))),
                );
            },
        }
        actions
    }

    /// Handle a pause command: toggle, then refresh the tray entry and icon
    /// and notify the frontend of the new paused status.
    pub fn handle_pause(state: &mut ApplicationState, now: u64) -> (r: Vec<Action>)
        requires
            old(state).inv(),
            old(state).time <= now,
        ensures
            final(state).inv(),
            state_transition_ok(*old(state), *final(state), InternalMessage::Pause, now),
            final(state).remaining_spec(now) == old(state).remaining_spec(now),
            restart_count(r@) == 0,
            pause_actions_ok(!old(state).timer.is_paused_spec(), r@),
    {
        broadcast use lemma_restart_count_push;

        let paused = state.toggle_pause(now);
        let mut actions = MenuManipulation::update_pause(paused);
        proof {
            lemma_restart_count_none(actions@);
        }
        actions.push(Action::SetIcon(paused));
        actions.push(Action::Emit(ToFrontEnd::Paused(paused)));
        actions
    }

    /// Handle the periodic update check: once a week of uptime has passed,
    /// rebase the week and ask the platform to fetch release information.
    pub fn handle_update_timer_check(state: &mut ApplicationState, now: u64) -> (r: Vec<Action>)
        requires
            old(state).inv(),
            old(state).time <= now,
        ensures
            final(state).inv(),
            state_transition_ok(*old(state), *final(state), InternalMessage::UpdateTimerCheck, now),
            restart_count(r@) == 0,
            r@ =~= if now - old(state).start_time >= crate::state::ONE_WEEK_AS_SEC {
                seq![Action::FetchUpdates]
            } else {
                Seq::<Action>::empty()
            },
    {
        broadcast use lemma_restart_count_push;

        let due = state.update_timer_check(now);
        let mut actions: Vec<Action> = Vec::new();
        if due {
            actions.push(Action::FetchUpdates);
        }
        actions
    }

    /// Handle a timer reset: restart the countdown of the active phase and
    /// replace the scheduler task.
    pub fn handle_reset_timer(state: &mut ApplicationState, now: u64) -> (r: Vec<Action>)
        requires
            old(state).inv(),
            old(state).time <= now,
        ensures
            final(state).inv(),
            state_transition_ok(*old(state), *final(state), InternalMessage::ResetTimer, now),
            restart_count(r@) == 1,
            r@ =~= seq![Action::RestartTick],
    {
        broadcast use lemma_restart_count_push;

        state.reset_timer(now);
        let mut actions: Vec<Action> = Vec::new();
        actions.push(Action::RestartTick);
        actions
    }

    /// Handle a break transition.
    pub fn handle_break(state: &mut ApplicationState, break_message: BreakMessage, now: u64) -> (r:
        Vec<Action>)
        requires
            old(state).inv(),
            old(state).time <= now,
        ensures
            final(state).inv(),
            state_transition_ok(
                *old(state),
                *final(state),
                InternalMessage::Break(break_message),
                now,
            ),
            restart_count(r@) == 0,
            break_actions_ok(*old(state), *final(state), break_message, now, r@),
    {
        broadcast use lemma_restart_count_push, lemma_restart_count_append;

        let fullscreen = state.get_fullscreen();
        let mut actions: Vec<Action> = Vec::new();
        match break_message {
            BreakMessage::Start => {
                state.start_break_session(now);
                actions.push(Action::MenuSetEnabled(false));
                actions.push(Action::Publish(InternalMessage::Emit(Emitter::Timer)));
                actions.push(Action::Window(WindowAction::Show(fullscreen)));
            },
            BreakMessage::End => {
                state.start_work_session(now);
                actions.push(Action::MenuSetEnabled(true));
                if state.pause_after_break {
                    actions.push(Action::Publish(InternalMessage::Pause));
                    actions.push(Action::Window(WindowAction::RemoveFullscreen));
                } else {
                    actions.push(Action::Window(WindowAction::Hide(fullscreen)));
                    let mut menu_actions = MenuManipulation::update_all(state, now);
                    let ghost menu_view = menu_actions@;
                    proof {
                        lemma_restart_count_none(menu_view);
                    }
                    actions.append(&mut menu_actions);
                    proof {
                        assert(actions@.subrange(2, 6) =~= menu_view);
                    }
                }
                state.clear_pause_after_break();
            },
        }
        actions
    }

    /// Handle one scheduler tick: record the CPU sample — when one was due —
    /// applying the auto-pause/auto-resume policy, then do the countdown
    /// bookkeeping. The policy never both pauses and resumes on one sample,
    /// and a missing sample skips the policy entirely.
    pub fn on_heartbeat(state: &mut ApplicationState, cpu_usage: Option<u32>, now: u64) -> (r: Vec<
        Action,
    >)
        requires
            old(state).inv(),
            old(state).time <= now,
        ensures
            final(state).inv(),
            state_transition_ok(
                *old(state),
                *final(state),
                InternalMessage::Heartbeat(cpu_usage),
                now,
            ),
            restart_count(r@) == 0,
            heartbeat_actions_ok(*old(state), *final(state), cpu_usage, now, r@),
    {
        broadcast use lemma_restart_count_push;

        let mut actions: Vec<Action> = Vec::new();
        if let Some(sample) = cpu_usage {
            let (measure, switch) = state.record_cpu_sample(sample);
            if !matches!(switch, AutoSwitch::Neither) {
                actions.push(Action::Publish(InternalMessage::Pause));
                actions.push(Action::Publish(InternalMessage::Emit(Emitter::Settings)));
            }
            actions.push(Action::Emit(ToFrontEnd::Cpu(measure)));
        }
        if !state.get_paused() {
            if state.get_on_break() {
                actions.push(Action::Emit(ToFrontEnd::OnBreak(state.current_timer_left(now))));
                if state.current_timer_left(now) < 1 {
                    actions.push(Action::Publish(InternalMessage::Break(BreakMessage::End)));
                }
            } else {
                actions.push(Action::Publish(InternalMessage::UpdateMenuTimer));
                if state.current_timer_left(now) < 1 {
                    actions.push(Action::Publish(InternalMessage::Break(BreakMessage::Start)));
                }
            }
        }
        actions
    }

    /// Handle a settings reset: install and persist the default configuration,
    /// restart the countdown and the scheduler, and hand the frontend the
    /// fresh snapshot and paused flag.
    pub fn handle_reset_settings(
        state: &mut ApplicationState,
        now: u64,
        start_on_boot: bool,
    ) -> (r: Vec<Action>)
        requires
            old(state).inv(),
            old(state).time <= now,
        ensures
            final(state).inv(),
            state_transition_ok(*old(state), *final(state), InternalMessage::ResetSettings, now),
            restart_count(r@) == 1,
            reset_actions_ok(*final(state), start_on_boot, r@),
    {
        broadcast use lemma_restart_count_push;

        let defaults = ModelSettings::default();
        state.set_settings(defaults);
        state.reset_timer(now);
        let mut actions: Vec<Action> = Vec::new();
        actions.push(Action::PersistSettings(defaults));
        actions.push(Action::RestartTick);
        actions.push(Action::Emit(ToFrontEnd::GetSettings(state.get_state(start_on_boot))));
        actions.push(Action::Emit(ToFrontEnd::Paused(state.get_paused())));
        actions
    }

    /// Handle a single-field settings edit: an edit to the value already held
    /// does nothing; an out-of-range edit is rejected with an error
    /// notification, previous settings retained; else the edit is applied and
    /// persisted, and a changed work-session length restarts the countdown
    /// and the scheduler.
    pub fn handle_setting_change(
        state: &mut ApplicationState,
        change: SettingChange,
        now: u64,
        start_on_boot: bool,
    ) -> (r: Vec<Action>)
        requires
            old(state).inv(),
            old(state).time <= now,
        ensures
            final(state).inv(),
            state_transition_ok(
                *old(state),
                *final(state),
                InternalMessage::ChangeSetting(change),
                now,
            ),
            restart_count(r@) == restarts_expected(
                *old(state),
                InternalMessage::ChangeSetting(change),
            ),
            setting_change_actions_ok(*old(state), *final(state), change, start_on_boot, r@),
    {
        broadcast use lemma_restart_count_push;

        if matches!(change, SettingChange::Reset) {
            return Self::handle_reset_settings(state, now, start_on_boot);
        }
        let new_settings = state.settings.with_change(change);
        let mut actions: Vec<Action> = Vec::new();
        if new_settings == state.settings {
            return actions;
        }
        if !new_settings.is_valid() {
            actions.push(Action::Emit(ToFrontEnd::Error));
            return actions;
        }
        state.set_settings(new_settings);
        actions.push(Action::PersistSettings(new_settings));
        if matches!(change, SettingChange::SessionLength(_)) {
            state.reset_timer(now);
            actions.push(Action::RestartTick);
        }
        actions
    }

    /// Handle a full settings snapshot from the frontend: an out-of-range
    /// snapshot is rejected with an error notification, previous settings
    /// retained; else the settings are applied and persisted, the auto-launch
    /// registration follows `start_on_boot`, and a changed work-session
    /// length restarts the countdown and the scheduler.
    pub fn handle_set_setting(
        state: &mut ApplicationState,
        frontend_state: FrontEndState,
        now: u64,
    ) -> (r: Vec<Action>)
        requires
            old(state).inv(),
            old(state).time <= now,
        ensures
            final(state).inv(),
            state_transition_ok(
                *old(state),
                *final(state),
                InternalMessage::SetSetting(frontend_state),
                now,
            ),
            restart_count(r@) == restarts_expected(
                *old(state),
                InternalMessage::SetSetting(frontend_state),
            ),
            set_setting_actions_ok(*old(state), frontend_state, r@),
    {
        broadcast use lemma_restart_count_push;

        let new_settings = ModelSettings::from(&frontend_state);
        let mut actions: Vec<Action> = Vec::new();
        if !new_settings.is_valid() {
            actions.push(Action::Emit(ToFrontEnd::Error));
            return actions;
        }
        actions.push(Action::SetAutoLaunch(frontend_state.start_on_boot));
        let session_changed = state.update_all_settings(&frontend_state);
        actions.push(Action::PersistSettings(new_settings));
        if session_changed {
            state.reset_timer(now);
            actions.push(Action::RestartTick);
        }
        actions
    }

    /// One dispatch step: consume one message at instant `now`, mutate the
    /// state as `state_transition_ok` pins down, and return the side effects
    /// in order. At most one scheduler restart is ever demanded
    /// (`restarts_expected`), so replacing the scheduler task on a settings
    /// change happens exactly once per change. Every settings message is
    /// followed by a full menu refresh, as is an explicit menu refresh
    /// request.
    pub fn handle_message(
        state: &mut ApplicationState,
        msg: InternalMessage,
        now: u64,
        start_on_boot: bool,
    ) -> (r: Vec<Action>)
        requires
            old(state).inv(),
            old(state).time <= now,
        ensures
            final(state).inv(),
            final(state).time <= now,
            state_transition_ok(*old(state), *final(state), msg, now),
            restart_count(r@) == restarts_expected(*old(state), msg),
            msg matches InternalMessage::Break(bm) ==> break_actions_ok(
                *old(state),
                *final(state),
                bm,
                now,
                r@,
            ),
            msg matches InternalMessage::ChangeSetting(change) ==> r@.len() >= 4
                && setting_change_actions_ok(
                *old(state),
                *final(state),
                change,
                start_on_boot,
                r@.take(r@.len() - 4),
            ) && menu_refresh_ok(*final(state), now, r@.skip(r@.len() - 4)),
            msg matches InternalMessage::Emit(emitter) ==> emitter_actions_ok(
                *old(state),
                emitter,
                now,
                start_on_boot,
                r@,
            ),
            msg matches InternalMessage::Heartbeat(cpu_usage) ==> heartbeat_actions_ok(
                *old(state),
                *final(state),
                cpu_usage,
                now,
                r@,
            ),
            msg is OpenLocation ==> r@ =~= seq![Action::OpenDataLocation],
            msg is Pause ==> pause_actions_ok(!old(state).timer.is_paused_spec(), r@),
            msg is ResetSettings ==> r@.len() == 8 && reset_actions_ok(
                *final(state),
                start_on_boot,
                r@.take(4),
            ) && menu_refresh_ok(*final(state), now, r@.skip(4)),
            msg is ResetTimer ==> r@ =~= seq![Action::RestartTick],
            msg matches InternalMessage::SetSetting(frontend_state) ==> r@.len() >= 4
                && set_setting_actions_ok(*old(state), frontend_state, r@.take(r@.len() - 4))
                && menu_refresh_ok(*final(state), now, r@.skip(r@.len() - 4)),
            msg is UpdateMenuTimer ==> menu_refresh_ok(*final(state), now, r@),
            msg is UpdatePause ==> r@ =~= Seq::<Action>::empty(),
            msg is UpdateTimerCheck ==> r@ =~= if now - old(state).start_time
                >= crate::state::ONE_WEEK_AS_SEC {
                seq![Action::FetchUpdates]
            } else {
                Seq::<Action>::empty()
            },
            msg matches InternalMessage::Window(v) ==> r@ =~= visibility_actions(
                old(state).on_break_spec(),
                v,
            ),
    {
        broadcast use lemma_restart_count_push, lemma_restart_count_append;

        match msg {
            InternalMessage::Break(break_message) => Self::handle_break(state, break_message, now),
            InternalMessage::ChangeSetting(change) => {
                let mut actions = Self::handle_setting_change(state, change, now, start_on_boot);
                let ghost head = actions@;
                let mut menu_actions = MenuManipulation::update_all(state, now);
                let ghost menu_view = menu_actions@;
                proof {
                    lemma_restart_count_none(menu_view);
                }
                actions.append(&mut menu_actions);
                proof {
                    lemma_restart_count_append(head, menu_view);
                    assert(actions@.take(actions@.len() - 4) =~= head);
                    assert(actions@.skip(actions@.len() - 4) =~= menu_view);
                }
                actions
            },
            InternalMessage::Emit(emitter) => Self::handle_emitter(
                state,
                emitter,
                now,
                start_on_boot,
            ),
            InternalMessage::Heartbeat(cpu_usage) => Self::on_heartbeat(state, cpu_usage, now),
            InternalMessage::OpenLocation => {
                let mut actions: Vec<Action> = Vec::new();
                actions.push(Action::OpenDataLocation);
                actions
            },
            InternalMessage::Pause => Self::handle_pause(state, now),
            InternalMessage::ResetSettings => {
                let mut actions = Self::handle_reset_settings(state, now, start_on_boot);
                let ghost head = actions@;
                let mut menu_actions = MenuManipulation::update_all(state, now);
                let ghost menu_view = menu_actions@;
                proof {
                    lemma_restart_count_none(menu_view);
                }
                actions.append(&mut menu_actions);
                proof {
                    lemma_restart_count_append(head, menu_view);
                    assert(actions@.take(4) =~= head);
                    assert(actions@.skip(4) =~= menu_view);
                }
                actions
            },
            InternalMessage::ResetTimer => Self::handle_reset_timer(state, now),
            InternalMessage::SetSetting(frontend_state) => {
                let mut actions = Self::handle_set_setting(state, frontend_state, now);
                let ghost head = actions@;
                let mut menu_actions = MenuManipulation::update_all(state, now);
                let ghost menu_view = menu_actions@;
                proof {
                    lemma_restart_count_none(menu_view);
                }
                actions.append(&mut menu_actions);
                proof {
                    lemma_restart_count_append(head, menu_view);
                    assert(actions@.take(actions@.len() - 4) =~= head);
                    assert(actions@.skip(actions@.len() - 4) =~= menu_view);
                }
                actions
            },
            InternalMessage::UpdateMenuTimer => {
                let actions = MenuManipulation::update_all(state, now);
                proof {
                    lemma_restart_count_none(actions@);
                }
                actions
            },
            InternalMessage::UpdatePause(pause) => {
                state.update_pause_after_break(pause);
                Vec::new()
            },
            InternalMessage::UpdateTimerCheck => Self::handle_update_timer_check(state, now),
            InternalMessage::Window(window_visibility) => Self::handle_visibility(
                state,
                window_visibility,
            ),
        }
    }
}

} // verus!
