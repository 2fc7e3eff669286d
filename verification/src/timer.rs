//! The countdown baseline: a monotonic start instant, optionally frozen by a
//! pause. Instants are seconds on a monotonic clock, supplied by the caller.

use vstd::prelude::*;

verus! {

/// The baseline from which elapsed-time-in-phase is measured.
///
/// `Work(start)` counts time as `now - start`. `Paused(start, paused_at)`
/// freezes the count at `paused_at - start`; resuming moves `start` forward by
/// exactly the time spent paused, so the frozen count is preserved.
#[derive(Debug, Clone, Copy, PartialEq, Eq, Structural)]
pub enum Timer {
    Paused(u64, u64),
    Work(u64),
}

impl Timer {
    /// Structural soundness: a pause can only happen after the start instant.
    pub open spec fn wf(self) -> bool {
        self matches Timer::Paused(start, paused_at) ==> start <= paused_at
    }

    /// All instants stored in the timer lie at or before `now`; holds of every
    /// timer built from instants read off a monotonic clock.
    pub open spec fn synced(self, now: u64) -> bool {
        match self {
            Timer::Work(start) => start <= now,
            Timer::Paused(_, paused_at) => paused_at <= now,
        }
    }

    pub open spec fn is_paused_spec(self) -> bool {
        self is Paused
    }

    /// Seconds counted against the current phase: live while running, frozen
    /// while paused.
    pub open spec fn elapsed_spec(self, now: u64) -> int {
        match self {
            Timer::Work(start) => now - start,
            Timer::Paused(start, paused_at) => paused_at - start,
        }
    }

    pub open spec fn toggle_spec(self, now: u64) -> Timer {
        match self {
            Timer::Work(start) => Timer::Paused(start, now),
            Timer::Paused(start, paused_at) => Timer::Work((start + now - paused_at) as u64),
        }
    }

    pub open spec fn reset_spec(self, now: u64) -> Timer {
        match self {
            Timer::Work(_) => Timer::Work(now),
            Timer::Paused(_, _) => Timer::Paused(now, now),
        }
    }

    /// A fresh baseline, running from `now`.
    pub fn new(now: u64) -> (r: Timer)
        ensures
            r == Timer::Work(now),
    {
        Timer::Work(now)
    }

    pub fn is_paused(&self) -> (r: bool)
        ensures
            r == self.is_paused_spec(),
    {
        matches!(self, Timer::Paused(_, _))
    }

    /// Flip between running and paused, preserving the elapsed count.
    pub fn toggle(self, now: u64) -> (r: Timer)
        requires
            self.wf(),
            self.synced(now),
        ensures
            r == self.toggle_spec(now),
            r.wf(),
            r.synced(now),
            r.is_paused_spec() == !self.is_paused_spec(),
            r.elapsed_spec(now) == self.elapsed_spec(now),
    {
        match self {
            Timer::Work(start) => Timer::Paused(start, now),
            Timer::Paused(start, paused_at) => Timer::Work(start + (now - paused_at)),
        }
    }

    /// Restart the countdown from `now`, keeping the paused/running status.
    pub fn reset(self, now: u64) -> (r: Timer)
        ensures
            r == self.reset_spec(now),
            r.wf(),
            r.synced(now),
            r.is_paused_spec() == self.is_paused_spec(),
            r.elapsed_spec(now) == 0,
    {
        match self {
            Timer::Work(_) => Timer::Work(now),
            Timer::Paused(_, _) => Timer::Paused(now, now),
        }
    }

    /// Seconds elapsed against the current phase.
    pub fn elapsed_secs(&self, now: u64) -> (r: u64)
        requires
            self.wf(),
            self.synced(now),
        ensures
            r == self.elapsed_spec(now),
    {
        match self {
            Timer::Work(start) => now - start,
            Timer::Paused(start, paused_at) => paused_at - start,
        }
    }
}

/// Applying `toggle` at each instant of `ts` in turn.
pub open spec fn apply_toggles(t: Timer, ts: Seq<u64>) -> Timer
    decreases ts.len(),
{
    if ts.len() == 0 {
        t
    } else {
        apply_toggles(t.toggle_spec(ts[0]), ts.drop_first())
    }
}

/// Total seconds spent paused over consecutive (pause, resume) instant pairs.
pub open spec fn paused_total(ts: Seq<u64>) -> int
    decreases ts.len(),
{
    if ts.len() < 2 {
        0
    } else {
        (ts[1] - ts[0]) + paused_total(ts.skip(2))
    }
}

pub open spec fn nondecreasing(ts: Seq<u64>) -> bool {
    forall|i: int, j: int| 0 <= i <= j < ts.len() ==> ts[i] <= ts[j]
}

/// Law: for every sequence of pause/resume pairs, time elapsed while running
/// is exactly wall time minus the time spent paused — toggling never advances
/// nor rewinds the countdown.
pub proof fn lemma_toggle_pairs_preserve_elapsed(start: u64, ts: Seq<u64>, now: u64)
    requires
        ts.len() % 2 == 0,
        nondecreasing(ts),
        forall|i: int| 0 <= i < ts.len() ==> start <= #[trigger] ts[i] <= now,
    ensures
        apply_toggles(Timer::Work(start), ts).elapsed_spec(now) == now - start - paused_total(
            ts,
        ),
        !apply_toggles(Timer::Work(start), ts).is_paused_spec(),
    decreases ts.len(),
{
    if ts.len() == 0 {
    } else {
        let p = ts[0];
        let r = ts[1];
        let t1 = Timer::Work(start).toggle_spec(p);
        assert(t1 == Timer::Paused(start, p));
        let t2 = t1.toggle_spec(r);
        let start2 = (start + r - p) as u64;
        assert(t2 == Timer::Work(start2));
        let rest = ts.skip(2);
        assert(apply_toggles(Timer::Work(start), ts) == apply_toggles(t1, ts.drop_first()));
        assert(ts.drop_first()[0] == r);
        assert(apply_toggles(t1, ts.drop_first()) == apply_toggles(
            t2,
            ts.drop_first().drop_first(),
        ));
        assert(ts.drop_first().drop_first() =~= rest);
        lemma_toggle_pairs_preserve_elapsed(start2, rest, now);
    }
}

/// Law: one pause followed by one resume restores a running timer whose
/// elapsed count equals the count at the moment of the pause.
pub proof fn lemma_pause_resume_round_trip(t: Timer, pause_at: u64, resume_at: u64)
    requires
        t.wf(),
        t.synced(pause_at),
        !t.is_paused_spec(),
        pause_at <= resume_at,
    ensures
        !t.toggle_spec(pause_at).toggle_spec(resume_at).is_paused_spec(),
        t.toggle_spec(pause_at).toggle_spec(resume_at).elapsed_spec(resume_at)
            == t.elapsed_spec(pause_at),
{
}

} // verus!
