//! Monotonic simulation time, counted in whole milliseconds.
//!
//! Every other component reads the clock, none owns it.  Timeouts are
//! expressed as timestamps compared against the shared clock, never as
//! external timers, so the comparison helpers below are the only way the
//! simulation asks about the passage of time.

use vstd::prelude::*;

verus! {

/// Upper bound on any timestamp the simulation handles (about 31 years of
/// ticks).  Keeping every timestamp under this bound lets all the
/// interpolation arithmetic below stay comfortably inside `i64`.
pub const TIME_LIMIT_MS: i64 = 1_000_000_000_000;

/// A point in simulation time, in milliseconds since the simulation started.
#[derive(Clone, Copy, PartialEq, Eq, Structural, Debug)]
pub struct ElapsedTime(pub i64);

impl ElapsedTime {
    /// Timestamps are non-negative and bounded.
    pub open spec fn wf(self) -> bool {
        0 <= self.0 <= TIME_LIMIT_MS
    }

    pub fn new(ms: i64) -> (r: ElapsedTime)
        requires
            0 <= ms <= TIME_LIMIT_MS,
        ensures
            r.0 == ms,
            r.wf(),
    {
        ElapsedTime(ms)
    }

    /// The timestamp `ms` milliseconds after `self`.
    pub fn add_millis(&self, ms: i64) -> (r: ElapsedTime)
        requires
            self.wf(),
            0 <= ms,
            self.0 + ms <= TIME_LIMIT_MS,
        ensures
            r.0 == self.0 + ms,
            r.wf(),
    {
        ElapsedTime(self.0 + ms)
    }

    /// Spec-level form of [`Self::has_already_passed`].
    pub open spec fn spec_has_already_passed(self, now: ElapsedTime) -> bool {
        self.0 <= now.0
    }

    /// Whether the moment `self` has already been reached at time `now`.
    /// A deadline equal to `now` counts as passed.
    pub fn has_already_passed(&self, now: ElapsedTime) -> (r: bool)
        ensures
            r == self.spec_has_already_passed(now),
    {
        self.0 <= now.0
    }

    /// Whether the moment `self` still lies in the future at time `now`.
    pub fn has_not_passed(&self, now: ElapsedTime) -> (r: bool)
        ensures
            r == !self.spec_has_already_passed(now),
    {
        self.0 > now.0
    }

    /// Spec-level form of [`Self::percentage_between`].
    pub open spec fn spec_percentage_between(
        self,
        from: ElapsedTime,
        to: ElapsedTime,
    ) -> int {
        crate::geom::trunc_div((self.0 - from.0) * 1000, to.0 - from.0)
    }

    /// How far `self` lies inside the window `[from, to]`, in permille:
    /// 0 at `from`, 1000 at `to`, beyond 1000 once the window is over,
    /// negative before it begins.  The division is by the window length,
    /// so a zero-length window is excluded; callers must guard.
    pub fn percentage_between(&self, from: ElapsedTime, to: ElapsedTime) -> (r: i64)
        requires
            from.wf(),
            to.wf(),
            self.wf(),
            from.0 < to.0,
        ensures
            r == self.spec_percentage_between(from, to),
            from.0 <= self.0 ==> r >= 0,
    {
        crate::geom::div_trunc((self.0 - from.0) * 1000, to.0 - from.0)
    }

    /// The time elapsed since `other`, in milliseconds.
    pub fn millis_since(&self, other: &ElapsedTime) -> (r: i64)
        requires
            self.wf(),
            other.wf(),
            other.0 <= self.0,
        ensures
            r == self.0 - other.0,
            0 <= r <= TIME_LIMIT_MS,
    {
        self.0 - other.0
    }
}

} // verus!
