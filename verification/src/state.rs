//! The session state machine: current phase, countdown baseline, the count of
//! short breaks since the last long break, the active settings snapshot and
//! the CPU sample history. All instants are seconds on a monotonic clock,
//! supplied by the caller and never decreasing.

use std::collections::VecDeque;
use vstd::prelude::*;

use crate::cpu;
use crate::cpu::{CPU_VECDEQUE_LEN, CpuMeasure};
use crate::settings::{FrontEndState, ModelSettings};
use crate::timer::Timer;

verus! {

/// Re-check for updates after a week of running.
pub const ONE_WEEK_AS_SEC: u64 = 60 * 60 * 24 * 7;

#[derive(Debug, Clone, Copy, PartialEq, Eq, Hash, Structural)]
pub enum BreakVariant {
    Short,
    Long,
}

impl BreakVariant {
    /// The lowercase name of the variant.
    pub fn as_str(&self) -> (r: &'static str)
        ensures
            *self is Short ==> r@ == "short"@,
            *self is Long ==> r@ == "long"@,
    {
        match self {
            BreakVariant::Short => "short",
            BreakVariant::Long => "long",
        }
    }
}

#[derive(Debug, Clone, Copy, PartialEq, Eq, Hash, Structural)]
pub enum SessionStatus {
    Work,
    Break(BreakVariant),
}

/// What the CPU policy decided on one sample: at most one of auto-pause and
/// auto-resume, never both.
#[derive(Debug, Clone, Copy, PartialEq, Eq, Hash, Structural)]
pub enum AutoSwitch {
    Neither,
    Pause,
    Resume,
}

/// The payload shown by the frontend when a break starts.
#[derive(Debug, PartialEq, Eq, Hash)]
pub struct ShowTimer {
    pub interval: u16,
    pub strategy: String,
}

impl ShowTimer {
    pub fn new(interval: u16, strategy: String) -> (r: ShowTimer)
        ensures
            r.interval == interval,
            r.strategy == strategy,
    {
        ShowTimer { interval, strategy }
    }
}

/// The break variant owed by the next `start_break_session` call: a short
/// break while strictly fewer than `number_session_before_break - 1` short
/// breaks have completed, else the long break.
pub open spec fn next_break_variant(count: u8, number_before_break: u8) -> BreakVariant {
    if count + 1 < number_before_break {
        BreakVariant::Short
    } else {
        BreakVariant::Long
    }
}

/// The counter after the next `start_break_session` call.
pub open spec fn next_break_count(count: u8, number_before_break: u8) -> u8 {
    if count + 1 < number_before_break {
        (count + 1) as u8
    } else {
        0
    }
}

/// The counter after `k` consecutive `start_break_session` calls.
pub open spec fn count_after_breaks(count: u8, number_before_break: u8, k: nat) -> u8
    decreases k,
{
    if k == 0 {
        count
    } else {
        next_break_count(count_after_breaks(count, number_before_break, (k - 1) as nat), number_before_break)
    }
}

/// Law: starting from a counter of 0, the first `n - 1` breaks are short with
/// the counter counting up, and the `n`-th break is the long one, after which
/// the counter is 0 again.
pub proof fn lemma_break_schedule(number_before_break: u8, k: nat)
    requires
        number_before_break >= 1,
        1 <= k <= number_before_break,
    ensures
        count_after_breaks(0, number_before_break, (k - 1) as nat) == (k - 1) as u8,
        k < number_before_break ==> {
            &&& next_break_variant(
                count_after_breaks(0, number_before_break, (k - 1) as nat),
                number_before_break,
            ) is Short
            &&& count_after_breaks(0, number_before_break, k) == k as u8
        },
        k == number_before_break ==> {
            &&& next_break_variant(
                count_after_breaks(0, number_before_break, (k - 1) as nat),
                number_before_break,
            ) is Long
            &&& count_after_breaks(0, number_before_break, k) == 0
        },
    decreases k,
{
    if k > 1 {
        lemma_break_schedule(number_before_break, (k - 1) as nat);
    }
}

/// The aggregate state owned by the dispatcher. `time` is the most recently
/// observed instant; `start_time` is when the update check last ran.
pub struct ApplicationState {
    pub cpu_usage: VecDeque<u32>,
    pub pause_after_break: bool,
    pub session_count: u8,
    pub session_status: SessionStatus,
    pub settings: ModelSettings,
    pub start_time: u64,
    pub strategies: Vec<String>,
    pub time: u64,
    pub timer: Timer,
}

impl ApplicationState {
    /// Well-formedness: valid settings, counter strictly below the long-break
    /// threshold, a sound timer whose instants are in the observed past, and
    /// a bounded CPU history.
    pub open spec fn inv(self) -> bool {
        &&& self.settings.valid()
        &&& (self.session_count as int) < (self.settings.number_session_before_break as int)
        &&& self.timer.wf()
        &&& self.timer.synced(self.time)
        &&& self.start_time <= self.time
        &&& self.cpu_usage@.len() <= CPU_VECDEQUE_LEN
    }

    /// The full duration, in seconds, of the phase that is currently active.
    pub open spec fn duration_spec(self) -> u16 {
        match self.session_status {
            SessionStatus::Work => self.settings.session_as_sec,
            SessionStatus::Break(BreakVariant::Short) => self.settings.short_break_as_sec,
            SessionStatus::Break(BreakVariant::Long) => self.settings.long_break_as_sec,
        }
    }

    /// Seconds left of the active phase at `now`: the phase duration less the
    /// elapsed time, saturating at zero, with elapsed time clamped to the
    /// 16-bit range so that an over-long baseline reads as nothing left.
    pub open spec fn remaining_spec(self, now: u64) -> u16 {
        let taken: int = if self.timer.elapsed_spec(now) > 0xffff {
            0xffff
        } else {
            self.timer.elapsed_spec(now)
        };
        if self.duration_spec() - taken <= 0 {
            0
        } else {
            (self.duration_spec() - taken) as u16
        }
    }

    pub open spec fn on_break_spec(self) -> bool {
        self.session_status !is Work
    }

    /// Construct the state machine at process start: a work session running
    /// from `now`, an unpaused timer, an empty history, a zero counter.
    pub fn new(settings: ModelSettings, strategies: Vec<String>, now: u64) -> (r: ApplicationState)
        requires
            settings.valid(),
        ensures
            r.inv(),
            r.session_status is Work,
            r.session_count == 0,
            r.settings == settings,
            r.strategies == strategies,
            r.timer == Timer::Work(now),
            !r.pause_after_break,
            r.cpu_usage@ =~= Seq::<u32>::empty(),
            r.time == now,
            r.start_time == now,
    {
        ApplicationState {
            cpu_usage: VecDeque::new(),
            pause_after_break: false,
            session_count: 0,
            session_status: SessionStatus::Work,
            settings,
            start_time: now,
            strategies,
            time: now,
            timer: Timer::new(now),
        }
    }

    /// Check if currently on a break.
    pub fn get_on_break(&self) -> (r: bool)
        ensures
            r == self.on_break_spec(),
    {
        !matches!(self.session_status, SessionStatus::Work)
    }

    /// Check if the countdown is paused.
    pub fn get_paused(&self) -> (r: bool)
        ensures
            r == self.timer.is_paused_spec(),
    {
        self.timer.is_paused()
    }

    /// Get fullscreen setting value.
    pub fn get_fullscreen(&self) -> (r: bool)
        ensures
            r == self.settings.fullscreen,
    {
        self.settings.fullscreen
    }

    /// Return, in seconds, the current amount left of the ongoing work — or
    /// break — session.
    pub fn current_timer_left(&self, now: u64) -> (r: u16)
        requires
            self.inv(),
            self.time <= now,
        ensures
            r == self.remaining_spec(now),
    {
        let elapsed = self.timer.elapsed_secs(now);
        let taken: u16 = if elapsed > 0xffff {
            0xffff
        } else {
            elapsed as u16
        };
        let duration: u16 = match self.session_status {
            SessionStatus::Work => self.settings.session_as_sec,
            SessionStatus::Break(BreakVariant::Short) => self.settings.short_break_as_sec,
            SessionStatus::Break(BreakVariant::Long) => self.settings.long_break_as_sec,
        };
        duration.saturating_sub(taken)
    }

    /// Toggle the pause status and return the new pause status. The elapsed
    /// count — and with it the countdown — is unchanged by the toggle.
    pub fn toggle_pause(&mut self, now: u64) -> (r: bool)
        requires
            old(self).inv(),
            old(self).time <= now,
        ensures
            final(self).inv(),
            *final(self) == (ApplicationState {
                timer: old(self).timer.toggle_spec(now),
                time: now,
                ..*old(self)
            }),
            r == final(self).timer.is_paused_spec(),
            r == !old(self).timer.is_paused_spec(),
            final(self).timer.elapsed_spec(now) == old(self).timer.elapsed_spec(now),
            final(self).remaining_spec(now) == old(self).remaining_spec(now),
    {
        self.timer = self.timer.toggle(now);
        self.time = now;
        self.timer.is_paused()
    }

    /// Restart the countdown of the active phase, keeping the paused status.
    pub fn reset_timer(&mut self, now: u64)
        requires
            old(self).inv(),
            old(self).time <= now,
        ensures
            final(self).inv(),
            *final(self) == (ApplicationState {
                timer: old(self).timer.reset_spec(now),
                time: now,
                ..*old(self)
            }),
            final(self).timer.elapsed_spec(now) == 0,
    {
        self.timer = self.timer.reset(now);
        self.time = now;
    }

    /// Start the work phase, with the countdown running from `now`.
    pub fn start_work_session(&mut self, now: u64)
        requires
            old(self).inv(),
            old(self).time <= now,
        ensures
            final(self).inv(),
            *final(self) == (ApplicationState {
                session_status: SessionStatus::Work,
                timer: Timer::Work(now),
                time: now,
                ..*old(self)
            }),
    {
        self.session_status = SessionStatus::Work;
        self.timer = Timer::new(now);
        self.time = now;
    }

    /// Start a break, with the countdown running from `now`: a short break —
    /// counting it — while strictly fewer than `number_session_before_break`
    /// would be reached, else the long break, resetting the counter to 0.
    pub fn start_break_session(&mut self, now: u64)
        requires
            old(self).inv(),
            old(self).time <= now,
        ensures
            final(self).inv(),
            *final(self) == (ApplicationState {
                session_status: SessionStatus::Break(
                    next_break_variant(
                        old(self).session_count,
                        old(self).settings.number_session_before_break,
                    ),
                ),
                session_count: next_break_count(
                    old(self).session_count,
                    old(self).settings.number_session_before_break,
                ),
                timer: Timer::Work(now),
                time: now,
                ..*old(self)
            }),
    {
        let break_type = if self.session_count + 1 < self.settings.number_session_before_break {
            self.session_count = self.session_count + 1;
            BreakVariant::Short
        } else {
            self.session_count = 0;
            BreakVariant::Long
        };
        self.timer = Timer::new(now);
        self.time = now;
        self.session_status = SessionStatus::Break(break_type);
    }

    /// Update the pause_after_break value.
    pub fn update_pause_after_break(&mut self, pause: bool)
        ensures
            *final(self) == (ApplicationState { pause_after_break: pause, ..*old(self) }),
    {
        self.pause_after_break = pause;
    }

    /// Clear the pause_after_break flag.
    pub fn clear_pause_after_break(&mut self)
        ensures
            *final(self) == (ApplicationState { pause_after_break: false, ..*old(self) }),
    {
        self.pause_after_break = false;
    }

    /// Install a settings snapshot, clamping the short-break counter under a
    /// lowered long-break threshold so the counter invariant is kept.
    pub fn set_settings(&mut self, settings: ModelSettings)
        requires
            old(self).inv(),
            settings.valid(),
        ensures
            final(self).inv(),
            *final(self) == (ApplicationState {
                settings,
                session_count: if (old(self).session_count as int) < (
                settings.number_session_before_break as int) {
                    old(self).session_count
                } else {
                    (settings.number_session_before_break - 1) as u8
                },
                ..*old(self)
            }),
    {
        if self.session_count >= settings.number_session_before_break {
            self.session_count = settings.number_session_before_break - 1;
        }
        self.settings = settings;
    }

    /// Install the settings carried by a frontend snapshot; reports whether
    /// the work-session length changed, in which case the caller owes a timer
    /// reset and a scheduler restart.
    pub fn update_all_settings(&mut self, frontend_state: &FrontEndState) -> (session_changed:
        bool)
        requires
            old(self).inv(),
            ModelSettings::of_frontend_spec(*frontend_state).valid(),
        ensures
            final(self).inv(),
            session_changed == (frontend_state.session_as_sec
                != old(self).settings.session_as_sec),
            *final(self) == (ApplicationState {
                settings: ModelSettings::of_frontend_spec(*frontend_state),
                session_count: if (old(self).session_count as int) < (
                frontend_state.number_session_before_break as int) {
                    old(self).session_count
                } else {
                    (frontend_state.number_session_before_break - 1) as u8
                },
                ..*old(self)
            }),
    {
        let changed = frontend_state.session_as_sec != self.settings.session_as_sec;
        let settings = ModelSettings::from(frontend_state);
        self.set_settings(settings);
        changed
    }

    /// Return the number of short sessions before the next long break.
    pub fn get_session_before_long_break(&self) -> (r: u8)
        ensures
            r == self.settings.number_session_before_break.saturating_sub(self.session_count),
    {
        self.settings.number_session_before_break.saturating_sub(self.session_count)
    }

    /// Create a string `next long break after x sessions`, for frontend and
    /// systemtray.
    pub fn get_sessions_before_long_title(&self) -> (r: String)
        ensures
            r@ == crate::text::sessions_before_long_title_spec(
                self.settings.number_session_before_break.saturating_sub(self.session_count),
            ),
    {
        crate::text::sessions_before_long_title(self.get_session_before_long_break())
    }

    /// Create a string `next break in x`, for frontend and systemtray.
    pub fn get_next_break_title(&self, now: u64) -> (r: String)
        requires
            self.inv(),
            self.time <= now,
        ensures
            r@ == crate::text::next_break_title_spec(self.remaining_spec(now)),
    {
        crate::text::next_break_title(self.current_timer_left(now))
    }

    /// Return a random Oblique strategy; the empty string when none are
    /// loaded.
    pub fn get_random_strategy(&self) -> (r: String)
        ensures
            self.strategies@.len() == 0 ==> r@ == Seq::<char>::empty(),
            self.strategies@.len() > 0 ==> exists|i: int|
                0 <= i < self.strategies@.len() && r@ == self.strategies@[i]@,
    {
        if self.strategies.len() == 0 {
            String::new()
        } else {
            let i = random_below(self.strategies.len());
            let r = self.strategies[i].clone();
            proof {
                assert(r@ == self.strategies@[i as int]@);
            }
            r
        }
    }

    /// Get the settings for starting a break: the seconds the break lasts and
    /// a strategy to show.
    pub fn get_break_settings(&self, now: u64) -> (r: (u16, String))
        requires
            self.inv(),
            self.time <= now,
        ensures
            r.0 == self.remaining_spec(now),
            self.strategies@.len() == 0 ==> r.1@ == Seq::<char>::empty(),
            self.strategies@.len() > 0 ==> exists|i: int|
                0 <= i < self.strategies@.len() && r.1@ == self.strategies@[i]@,
    {
        (self.current_timer_left(now), self.get_random_strategy())
    }

    /// Create a FrontEndState snapshot from the ApplicationState; whether the
    /// process starts on boot is known only to the platform layer and is
    /// passed in.
    pub fn get_state(&self, start_on_boot: bool) -> (r: FrontEndState)
        ensures
            r == (FrontEndState {
                auto_pause_threshold: self.settings.auto_pause_threshold,
                auto_pause_timespan_sec: self.settings.auto_pause_timespan_sec,
                auto_pause: self.settings.auto_pause,
                auto_resume_threshold: self.settings.auto_resume_threshold,
                auto_resume_timespan_sec: self.settings.auto_resume_timespan_sec,
                auto_resume: self.settings.auto_resume,
                fullscreen: self.settings.fullscreen,
                long_break_as_sec: self.settings.long_break_as_sec,
                number_session_before_break: self.settings.number_session_before_break,
                paused: self.timer.is_paused_spec(),
                session_as_sec: self.settings.session_as_sec,
                short_break_as_sec: self.settings.short_break_as_sec,
                start_on_boot,
            }),
    {
        FrontEndState {
            auto_pause_threshold: self.settings.auto_pause_threshold,
            auto_pause_timespan_sec: self.settings.auto_pause_timespan_sec,
            auto_pause: self.settings.auto_pause,
            auto_resume_threshold: self.settings.auto_resume_threshold,
            auto_resume_timespan_sec: self.settings.auto_resume_timespan_sec,
            auto_resume: self.settings.auto_resume,
            fullscreen: self.settings.fullscreen,
            long_break_as_sec: self.settings.long_break_as_sec,
            number_session_before_break: self.settings.number_session_before_break,
            paused: self.get_paused(),
            session_as_sec: self.settings.session_as_sec,
            short_break_as_sec: self.settings.short_break_as_sec,
            start_on_boot,
        }
    }

    /// Check if the process has been running for more than one week; if so,
    /// reset the week baseline and report that an update check is due.
    pub fn update_timer_check(&mut self, now: u64) -> (check_due: bool)
        requires
            old(self).inv(),
            old(self).time <= now,
        ensures
            final(self).inv(),
            check_due == (now - old(self).start_time >= ONE_WEEK_AS_SEC),
            *final(self) == (ApplicationState {
                start_time: if check_due {
                    now
                } else {
                    old(self).start_time
                },
                time: now,
                ..*old(self)
            }),
    {
        self.time = now;
        if now - self.start_time >= ONE_WEEK_AS_SEC {
            self.start_time = now;
            true
        } else {
            false
        }
    }

    /// Calculate the average cpu usage over the previous `limit` samples.
    pub fn calc_cpu_average(&self, limit: u16) -> (r: Option<u32>)
        ensures
            r == cpu::cpu_average_spec(self.cpu_usage@, limit),
    {
        cpu::cpu_average(&self.cpu_usage, limit)
    }

    /// The CPU policy on the history as it stands: auto-pause when unpaused in
    /// a work session with auto-pause enabled and the pause window's exact
    /// mean at or below its threshold; auto-resume when paused in a work
    /// session with auto-resume enabled and the resume window's exact mean at
    /// or above its threshold. At most one applies, gated by the current
    /// paused status.
    pub open spec fn auto_switch_spec(self) -> AutoSwitch {
        if self.session_status is Work && self.timer.is_paused_spec() && self.settings.auto_resume
            && cpu::window_at_or_above(
            self.cpu_usage@,
            self.settings.auto_resume_timespan_sec,
            self.settings.auto_resume_threshold,
        ) {
            AutoSwitch::Resume
        } else if self.session_status is Work && !self.timer.is_paused_spec()
            && self.settings.auto_pause && cpu::window_at_or_below(
            self.cpu_usage@,
            self.settings.auto_pause_timespan_sec,
            self.settings.auto_pause_threshold,
        ) {
            AutoSwitch::Pause
        } else {
            AutoSwitch::Neither
        }
    }

    /// Record one CPU sample (in hundredths of a percent): push it — evicting
    /// the oldest at capacity — report the current reading with both trailing
    /// averages (`None` until a window has enough samples), and decide the
    /// auto-pause/auto-resume policy. The decision is returned, not applied:
    /// the dispatcher publishes the pause command.
    pub fn record_cpu_sample(&mut self, sample: u32) -> (r: (CpuMeasure, AutoSwitch))
        requires
            old(self).inv(),
        ensures
            final(self).inv(),
            *final(self) == (ApplicationState { cpu_usage: final(self).cpu_usage, ..*old(self) }),
            old(self).cpu_usage@.len() < CPU_VECDEQUE_LEN ==> final(self).cpu_usage@ == seq![sample]
                + old(self).cpu_usage@,
            old(self).cpu_usage@.len() == CPU_VECDEQUE_LEN ==> final(self).cpu_usage@
                == seq![sample] + old(self).cpu_usage@.subrange(0, CPU_VECDEQUE_LEN - 1),
            r.0.current == sample,
            r.0.pause == cpu::cpu_average_spec(
                final(self).cpu_usage@,
                old(self).settings.auto_pause_timespan_sec,
            ),
            r.0.resume == cpu::cpu_average_spec(
                final(self).cpu_usage@,
                old(self).settings.auto_resume_timespan_sec,
            ),
            r.1 == final(self).auto_switch_spec(),
            !(r.1 is Pause && r.1 is Resume),
            r.1 is Pause ==> !old(self).timer.is_paused_spec(),
            r.1 is Resume ==> old(self).timer.is_paused_spec(),
    {
        cpu::record_sample(&mut self.cpu_usage, sample);
        let measure = CpuMeasure {
            current: sample,
            pause: cpu::cpu_average(&self.cpu_usage, self.settings.auto_pause_timespan_sec),
            resume: cpu::cpu_average(&self.cpu_usage, self.settings.auto_resume_timespan_sec),
        };
        let is_paused = self.get_paused();
        let switch = if matches!(self.session_status, SessionStatus::Work) {
            if is_paused && self.settings.auto_resume && cpu::window_is_at_or_above(
                &self.cpu_usage,
                self.settings.auto_resume_timespan_sec,
                self.settings.auto_resume_threshold,
            ) {
                AutoSwitch::Resume
            } else if !is_paused && self.settings.auto_pause && cpu::window_is_at_or_below(
                &self.cpu_usage,
                self.settings.auto_pause_timespan_sec,
                self.settings.auto_pause_threshold,
            ) {
                AutoSwitch::Pause
            } else {
                AutoSwitch::Neither
            }
        } else {
            AutoSwitch::Neither
        };
        (measure, switch)
    }
}

/// Law: `remaining_spec` never increases as time advances while the timer is
/// running, is constant while it is paused, and never reads below zero.
pub proof fn lemma_remaining_monotonic(s: ApplicationState, n1: u64, n2: u64)
    requires
        s.inv(),
        s.time <= n1 <= n2,
    ensures
        s.remaining_spec(n2) >= 0,
        !s.timer.is_paused_spec() ==> s.remaining_spec(n2) <= s.remaining_spec(n1),
        s.timer.is_paused_spec() ==> s.remaining_spec(n2) == s.remaining_spec(n1),
{
}

/// Relies on `rand::random_range` over `0..n`: returns a uniformly chosen
/// index strictly below `n`. It panics only on an empty range, which the
/// precondition excludes.
#[verifier::external_body]
fn random_below(n: usize) -> (r: usize)
    requires
        n >= 1,
    ensures
        r < n,
{
    rand::random_range(0..n)
}

} // verus!
