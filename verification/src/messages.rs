//! The command-bus vocabulary: inbound messages that the dispatcher consumes,
//! outbound notifications for the frontend, and the side-effect actions the
//! dispatcher hands back to the platform layer to perform.

use vstd::prelude::*;

use crate::cpu::CpuMeasure;
use crate::settings::{FrontEndState, ModelSettings, SettingChange};
use crate::state::ShowTimer;

verus! {

/// Break transition commands.
#[derive(Debug, Clone, Copy, PartialEq, Eq, Hash, Structural)]
pub enum BreakMessage {
    End,
    Start,
}

/// Window visibility commands.
#[derive(Debug, Clone, Copy, PartialEq, Eq, Hash, Structural)]
pub enum WindowVisibility {
    Close,
    Hide,
    Minimize,
    Show,
    Toggle,
}

/// Requests to send a notification to the frontend; the dispatcher computes
/// the payload from the current state.
#[derive(Debug, Clone, Copy, PartialEq, Eq, Hash, Structural)]
pub enum Emitter {
    GoToSettings,
    NextBreak,
    OnBreak,
    PackageInfo,
    Paused,
    SendError,
    SessionsBeforeLong,
    Settings,
    Timer,
}

/// Everything the dispatcher consumes, from the scheduler and from the UI.
/// `Heartbeat` carries the CPU sample of this tick, in hundredths of a
/// percent, or `None` when no sample was due or the source was unreachable.
#[derive(Debug, Clone, Copy, PartialEq, Eq, Hash, Structural)]
pub enum InternalMessage {
    Break(BreakMessage),
    ChangeSetting(SettingChange),
    Emit(Emitter),
    Heartbeat(Option<u32>),
    OpenLocation,
    Pause,
    ResetSettings,
    ResetTimer,
    SetSetting(FrontEndState),
    UpdateMenuTimer,
    UpdatePause(bool),
    UpdateTimerCheck,
    Window(WindowVisibility),
}

/// An outbound frontend notification with its payload.
#[derive(Debug, PartialEq, Eq)]
pub enum ToFrontEnd {
    Cpu(CpuMeasure),
    Error,
    Fullscreen(bool),
    GetSettings(FrontEndState),
    GoToSettings,
    GoToTimer(ShowTimer),
    NextBreak(String),
    OnBreak(u16),
    PackageInfo,
    Paused(bool),
    SessionsBeforeLong(String),
}

impl ToFrontEnd {
    /// The frontend event name of this notification.
    pub fn as_str(&self) -> (r: &'static str)
        ensures
            *self is Cpu ==> r@ == "cpu"@,
            *self is Error ==> r@ == "error"@,
            *self is Fullscreen ==> r@ == "fullscreen"@,
            *self is GetSettings ==> r@ == "get::settings"@,
            *self is GoToSettings ==> r@ == "goto::settings"@,
            *self is GoToTimer ==> r@ == "goto::timer"@,
            *self is NextBreak ==> r@ == "next-break"@,
            *self is OnBreak ==> r@ == "on-break"@,
            *self is PackageInfo ==> r@ == "package-info"@,
            *self is Paused ==> r@ == "paused"@,
            *self is SessionsBeforeLong ==> r@ == "sessions-before-long"@,
    {
        match self {
            ToFrontEnd::Cpu(_) => "cpu",
            ToFrontEnd::Error => "error",
            ToFrontEnd::Fullscreen(_) => "fullscreen",
            ToFrontEnd::GetSettings(_) => "get::settings",
            ToFrontEnd::GoToSettings => "goto::settings",
            ToFrontEnd::GoToTimer(_) => "goto::timer",
            ToFrontEnd::NextBreak(_) => "next-break",
            ToFrontEnd::OnBreak(_) => "on-break",
            ToFrontEnd::PackageInfo => "package-info",
            ToFrontEnd::Paused(_) => "paused",
            ToFrontEnd::SessionsBeforeLong(_) => "sessions-before-long",
        }
    }
}

/// A window command for the platform layer; the flag is whether the window is
/// being shown or hidden around a fullscreen break.
#[derive(Debug, Clone, Copy, PartialEq, Eq, Hash, Structural)]
pub enum WindowAction {
    Exit,
    Hide(bool),
    RemoveFullscreen,
    Show(bool),
    Toggle(bool),
}

/// The entries of the system tray menu.
#[derive(Debug, Clone, Copy, PartialEq, Eq, Hash, Structural)]
pub enum MenuEntry {
    Session,
    Next,
    Pause,
    Quit,
    Settings,
}

impl MenuEntry {
    /// The stable identifier of the entry.
    pub fn get_id(self) -> (r: &'static str)
        ensures
            self is Session ==> r@ == "session"@,
            self is Next ==> r@ == "next"@,
            self is Pause ==> r@ == "pause"@,
            self is Quit ==> r@ == "quit"@,
            self is Settings ==> r@ == "settings"@,
    {
        match self {
            MenuEntry::Session => "session",
            MenuEntry::Next => "next",
            MenuEntry::Pause => "pause",
            MenuEntry::Quit => "quit",
            MenuEntry::Settings => "settings",
        }
    }

    /// The initial display text of the entry.
    pub fn as_str(self) -> (r: &'static str)
        ensures
            self is Session ==> r@ == "session"@,
            self is Next ==> r@ == "loading..."@,
            self is Pause ==> r@ == "Pause"@,
            self is Quit ==> r@ == "Quit"@,
            self is Settings ==> r@ == "Settings"@,
    {
        match self {
            MenuEntry::Session => "session",
            MenuEntry::Next => "loading...",
            MenuEntry::Pause => "Pause",
            MenuEntry::Quit => "Quit",
            MenuEntry::Settings => "Settings",
        }
    }
}

/// The message owed when a tray menu entry is clicked: the settings page for
/// `Settings`, closing for `Quit`, a pause toggle for `Pause`; the two title
/// entries are informational and answer to no click.
pub fn on_menu_entry(entry: MenuEntry) -> (r: Option<InternalMessage>)
    ensures
        r == match entry {
            MenuEntry::Settings => Some(InternalMessage::Emit(Emitter::GoToSettings)),
            MenuEntry::Quit => Some(InternalMessage::Window(WindowVisibility::Close)),
            MenuEntry::Pause => Some(InternalMessage::Pause),
            MenuEntry::Session => None::<InternalMessage>,
            MenuEntry::Next => None::<InternalMessage>,
        },
{
    match entry {
        MenuEntry::Settings => Some(InternalMessage::Emit(Emitter::GoToSettings)),
        MenuEntry::Quit => Some(InternalMessage::Window(WindowVisibility::Close)),
        MenuEntry::Pause => Some(InternalMessage::Pause),
        MenuEntry::Session => None,
        MenuEntry::Next => None,
    }
}

/// One side effect for the platform layer to perform after a dispatch step,
/// in order. `Publish` re-enqueues a message onto the command bus;
/// `PersistSettings` asks the settings store to save a snapshot (on failure
/// the platform publishes `Emit(SendError)` and the in-memory settings stand);
/// `RestartTick` cancels the running scheduler task and starts a fresh one.
#[derive(Debug, PartialEq, Eq)]
pub enum Action {
    Emit(ToFrontEnd),
    FetchUpdates,
    MenuSetEnabled(bool),
    MenuSetNextBreakTitle(String),
    MenuSetPause { title: String, items_enabled: bool },
    MenuSetSessionTitle(String),
    OpenDataLocation,
    PersistSettings(ModelSettings),
    Publish(InternalMessage),
    RestartTick,
    SetAutoLaunch(bool),
    SetIcon(bool),
    Window(WindowAction),
}

} // verus!
