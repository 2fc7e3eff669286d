//! User-configurable timing settings: the durations and thresholds that
//! parameterize the session state machine, plus the snapshot exchanged with
//! the frontend.

use vstd::prelude::*;

verus! {

/// One minute, in seconds.
pub const ONE_MINUTE_AS_SEC: u16 = 60;

/// The persisted settings snapshot. CPU thresholds are whole percentage
/// points; timespans are the trailing-window lengths, in seconds, over which
/// CPU averages are taken.
#[derive(Debug, Clone, Copy, Hash, PartialEq, Eq, Structural)]
pub struct ModelSettings {
    pub auto_pause_threshold: u8,
    pub auto_pause_timespan_sec: u16,
    pub auto_pause: bool,
    pub auto_resume_threshold: u8,
    pub auto_resume_timespan_sec: u16,
    pub auto_resume: bool,
    pub fullscreen: bool,
    pub long_break_as_sec: u16,
    pub number_session_before_break: u8,
    pub session_as_sec: u16,
    pub short_break_as_sec: u16,
}

/// The settings as the frontend sees them, together with the two values that
/// are not persisted alongside them (paused status, start-on-boot).
#[derive(Debug, Clone, Copy, Hash, PartialEq, Eq, Structural)]
pub struct FrontEndState {
    pub auto_pause_threshold: u8,
    pub auto_pause_timespan_sec: u16,
    pub auto_pause: bool,
    pub auto_resume_threshold: u8,
    pub auto_resume_timespan_sec: u16,
    pub auto_resume: bool,
    pub fullscreen: bool,
    pub long_break_as_sec: u16,
    pub number_session_before_break: u8,
    pub paused: bool,
    pub session_as_sec: u16,
    pub short_break_as_sec: u16,
    pub start_on_boot: bool,
}

/// A single-field settings edit requested by the frontend.
#[derive(Debug, Clone, Copy, PartialEq, Eq, Hash, Structural)]
pub enum SettingChange {
    FullScreen(bool),
    LongBreakLength(u16),
    NumberSessions(u8),
    ShortBreakLength(u8),
    SessionLength(u16),
    Reset,
}

impl ModelSettings {
    /// The documented default configuration, installed when nothing has been
    /// persisted yet.
    pub open spec fn default_spec() -> ModelSettings {
        ModelSettings {
            auto_pause_threshold: 5,
            auto_pause_timespan_sec: 300,
            auto_pause: false,
            auto_resume_threshold: 5,
            auto_resume_timespan_sec: 300,
            auto_resume: false,
            fullscreen: false,
            long_break_as_sec: 300,
            number_session_before_break: 4,
            session_as_sec: 1500,
            short_break_as_sec: 60,
        }
    }

    /// Settings are well-formed when at least one work session is required
    /// before a long break; all durations are non-negative by type.
    pub open spec fn valid(self) -> bool {
        self.number_session_before_break >= 1
    }

    /// The settings carried inside a frontend snapshot.
    pub open spec fn of_frontend_spec(value: FrontEndState) -> ModelSettings {
        ModelSettings {
            auto_pause_threshold: value.auto_pause_threshold,
            auto_pause_timespan_sec: value.auto_pause_timespan_sec,
            auto_pause: value.auto_pause,
            auto_resume_threshold: value.auto_resume_threshold,
            auto_resume_timespan_sec: value.auto_resume_timespan_sec,
            auto_resume: value.auto_resume,
            fullscreen: value.fullscreen,
            long_break_as_sec: value.long_break_as_sec,
            number_session_before_break: value.number_session_before_break,
            session_as_sec: value.session_as_sec,
            short_break_as_sec: value.short_break_as_sec,
        }
    }

    /// `self` with one field edited as `change` asks (`Reset` yields the
    /// default configuration).
    pub open spec fn with_change_spec(self, change: SettingChange) -> ModelSettings {
        match change {
            SettingChange::FullScreen(value) => ModelSettings { fullscreen: value, ..self },
            SettingChange::LongBreakLength(value) => ModelSettings {
                long_break_as_sec: value,
                ..self
            },
            SettingChange::NumberSessions(value) => ModelSettings {
                number_session_before_break: value,
                ..self
            },
            SettingChange::ShortBreakLength(value) => ModelSettings {
                short_break_as_sec: value as u16,
                ..self
            },
            SettingChange::SessionLength(value) => ModelSettings { session_as_sec: value, ..self },
            SettingChange::Reset => ModelSettings::default_spec(),
        }
    }

    /// Apply a single-field edit.
    pub fn with_change(self, change: SettingChange) -> (r: ModelSettings)
        ensures
            r == self.with_change_spec(change),
    {
        match change {
            SettingChange::FullScreen(value) => ModelSettings { fullscreen: value, ..self },
            SettingChange::LongBreakLength(value) => ModelSettings {
                long_break_as_sec: value,
                ..self
            },
            SettingChange::NumberSessions(value) => ModelSettings {
                number_session_before_break: value,
                ..self
            },
            SettingChange::ShortBreakLength(value) => ModelSettings {
                short_break_as_sec: value as u16,
                ..self
            },
            SettingChange::SessionLength(value) => ModelSettings { session_as_sec: value, ..self },
            SettingChange::Reset => ModelSettings::default(),
        }
    }

    pub fn is_valid(&self) -> (r: bool)
        ensures
            r == self.valid(),
    {
        self.number_session_before_break >= 1
    }

    /// What to adopt after asking the settings store for the persisted row.
    ///
    /// A valid persisted snapshot is adopted as is. When nothing was persisted
    /// — or the stored row is out of range — the default configuration is
    /// adopted, and the second component asks the caller to persist it (the
    /// documented default is installed and persisted exactly once).
    pub fn init(loaded: Option<ModelSettings>) -> (r: (ModelSettings, bool))
        ensures
            r.0.valid(),
            match loaded {
                Some(stored) => {
                    if stored.valid() {
                        r.0 == stored && !r.1
                    } else {
                        r.0 == ModelSettings::default_spec() && r.1
                    }
                },
                None => r.0 == ModelSettings::default_spec() && r.1,
            },
    {
        match loaded {
            Some(stored) => {
                if stored.is_valid() {
                    (stored, false)
                } else {
                    (ModelSettings::default(), true)
                }
            },
            None => (ModelSettings::default(), true),
        }
    }
}

impl Default for ModelSettings {
    /// The documented default configuration.
    fn default() -> (r: ModelSettings)
        ensures
            r == ModelSettings::default_spec(),
    {
        ModelSettings {
            auto_pause_threshold: 5,
            auto_pause_timespan_sec: 300,
            auto_pause: false,
            auto_resume_threshold: 5,
            auto_resume_timespan_sec: 300,
            auto_resume: false,
            fullscreen: false,
            long_break_as_sec: ONE_MINUTE_AS_SEC * 5,
            number_session_before_break: 4,
            session_as_sec: ONE_MINUTE_AS_SEC * 25,
            short_break_as_sec: ONE_MINUTE_AS_SEC,
        }
    }
}

impl From<&FrontEndState> for ModelSettings {
    fn from(value: &FrontEndState) -> (r: ModelSettings) {
        ModelSettings {
            auto_pause_threshold: value.auto_pause_threshold,
            auto_pause_timespan_sec: value.auto_pause_timespan_sec,
            auto_pause: value.auto_pause,
            auto_resume_threshold: value.auto_resume_threshold,
            auto_resume_timespan_sec: value.auto_resume_timespan_sec,
            auto_resume: value.auto_resume,
            fullscreen: value.fullscreen,
            long_break_as_sec: value.long_break_as_sec,
            number_session_before_break: value.number_session_before_break,
            session_as_sec: value.session_as_sec,
            short_break_as_sec: value.short_break_as_sec,
        }
    }
}

impl vstd::std_specs::convert::FromSpecImpl<&FrontEndState> for ModelSettings {
    open spec fn obeys_from_spec() -> bool {
        true
    }

    open spec fn from_spec(value: &FrontEndState) -> ModelSettings {
        ModelSettings::of_frontend_spec(*value)
    }
}

} // verus!
