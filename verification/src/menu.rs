//! Tray-menu bookkeeping: the actions that refresh the menu titles and the
//! Pause/Resume entry, paired with the matching frontend notifications.

use vstd::prelude::*;

use crate::messages::{Action, ToFrontEnd};
use crate::state::ApplicationState;
use crate::text;

verus! {

/// `a` sets the tray countdown title for `left` seconds until the next break.
pub open spec fn sets_next_break_title(a: Action, left: u16) -> bool {
    a matches Action::MenuSetNextBreakTitle(t) && t@ == text::next_break_title_spec(left)
}

/// `a` notifies the frontend of the countdown title for `left` seconds.
pub open spec fn emits_next_break(a: Action, left: u16) -> bool {
    a matches Action::Emit(ToFrontEnd::NextBreak(t)) && t@ == text::next_break_title_spec(left)
}

/// `a` sets the tray title for `sessions_left` sessions until the long break.
pub open spec fn sets_session_title(a: Action, sessions_left: u8) -> bool {
    a matches Action::MenuSetSessionTitle(t) && t@ == text::sessions_before_long_title_spec(
        sessions_left,
    )
}

/// `a` notifies the frontend of the sessions-until-long-break title.
pub open spec fn emits_sessions_before_long(a: Action, sessions_left: u8) -> bool {
    a matches Action::Emit(ToFrontEnd::SessionsBeforeLong(t)) && t@
        == text::sessions_before_long_title_spec(sessions_left)
}

/// `a` retitles the Pause entry ("Resume" while paused) and enables the two
/// informational entries exactly while running.
pub open spec fn sets_pause_menu(a: Action, paused: bool) -> bool {
    a matches Action::MenuSetPause { title, items_enabled } && items_enabled == !paused && title@
        == (if paused {
        "Resume"@
    } else {
        "Pause"@
    })
}

/// The number of short sessions left before the next long break.
pub open spec fn sessions_left_spec(state: ApplicationState) -> u8 {
    state.settings.number_session_before_break.saturating_sub(state.session_count)
}

pub struct MenuManipulation;

impl MenuManipulation {
    /// Update the systemtray next-break text, and notify the frontend of the
    /// next break timer.
    pub fn update_next_break(state: &ApplicationState, now: u64) -> (r: Vec<Action>)
        requires
            state.inv(),
            state.time <= now,
        ensures
            r@.len() == 2,
            sets_next_break_title(r@[0], state.remaining_spec(now)),
            emits_next_break(r@[1], state.remaining_spec(now)),
    {
        let title = state.get_next_break_title(now);
        let text_copy = title.clone();
        let mut actions: Vec<Action> = Vec::new();
        actions.push(Action::MenuSetNextBreakTitle(title));
        actions.push(Action::Emit(ToFrontEnd::NextBreak(text_copy)));
        actions
    }

    /// Update the systemtray sessions-before-long-break text, and notify the
    /// frontend of it.
    pub fn update_session_number(state: &ApplicationState) -> (r: Vec<Action>)
        ensures
            r@.len() == 2,
            sets_session_title(r@[0], sessions_left_spec(*state)),
            emits_sessions_before_long(r@[1], sessions_left_spec(*state)),
    {
        let title = state.get_sessions_before_long_title();
        let text_copy = title.clone();
        let mut actions: Vec<Action> = Vec::new();
        actions.push(Action::MenuSetSessionTitle(title));
        actions.push(Action::Emit(ToFrontEnd::SessionsBeforeLong(text_copy)));
        actions
    }

    /// Update the systemtray Pause/Resume entry for the given paused status.
    pub fn update_pause(paused: bool) -> (r: Vec<Action>)
        ensures
            r@.len() == 1,
            sets_pause_menu(r@[0], paused),
    {
        let title = if paused {
            String::from_str("Resume")
        } else {
            String::from_str("Pause")
        };
        let mut actions: Vec<Action> = Vec::new();
        actions.push(Action::MenuSetPause { title, items_enabled: !paused });
        actions
    }

    /// Update all menu titles.
    pub fn update_all(state: &ApplicationState, now: u64) -> (r: Vec<Action>)
        requires
            state.inv(),
            state.time <= now,
        ensures
            r@.len() == 4,
            sets_next_break_title(r@[0], state.remaining_spec(now)),
            emits_next_break(r@[1], state.remaining_spec(now)),
            sets_session_title(r@[2], sessions_left_spec(*state)),
            emits_sessions_before_long(r@[3], sessions_left_spec(*state)),
    {
        let mut actions = Self::update_next_break(state, now);
        let mut rest = Self::update_session_number(state);
        actions.append(&mut rest);
        actions
    }
}

} // verus!
