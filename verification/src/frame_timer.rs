//! A timer that fires when its firing time has come and then skips ahead
//! by whole periods past the present.

use vstd::prelude::*;
use std::time::{Duration, Instant};
use crate::clock::{duration_as_nanos, duration_nanos, elapsed_since, instant_now, max_duration_nanos};

verus! {

/// The state of a timer, times in nanoseconds since the timer was made.
pub struct FrameTimerModel {
    pub next_firing: u128,
    pub duration: u128,
}

/// The time `next` moved on by `k` periods of length `d`.
pub open spec fn advanced_by(next: nat, k: nat, d: nat) -> nat {
    next + k * d
}

/// Whether `new` and `fired` are what a tick at `now` makes of `old`: no
/// firing before the firing time; otherwise a firing, with the firing time
/// moved on by whole periods to the first one no earlier than `now`.
pub open spec fn tick_outcome(old: FrameTimerModel, new: FrameTimerModel, fired: bool, now: u128) -> bool {
    &&& fired == (now >= old.next_firing)
    &&& new.duration == old.duration
    &&& !fired ==> new == old
    &&& fired ==> exists|k: nat| new.next_firing == #[trigger] advanced_by(old.next_firing as nat, k, old.duration as nat)
    &&& fired ==> now <= new.next_firing
    &&& fired ==> new.next_firing == old.next_firing || new.next_firing < now + old.duration
}

/// A timer that fires once per period, skipping periods it missed.
#[derive(Debug)]
pub struct WallTimer {
    origin: Instant,
    next_firing: u128,
    duration: u128,
}

impl View for WallTimer {
    type V = FrameTimerModel;

    closed spec fn view(&self) -> FrameTimerModel {
        FrameTimerModel { next_firing: self.next_firing, duration: self.duration }
    }
}

impl WallTimer {
    /// A timer with the given period that fires at its first tick.
    pub fn with_dur(duration: Duration) -> (t: Self)
        ensures
            t@.next_firing == 0,
            t@.duration == duration_as_nanos(duration),
            t@.duration <= max_duration_nanos(),
    {
        let origin = instant_now();
        WallTimer { origin, next_firing: 0, duration: duration_nanos(duration) }
    }

    /// Advances the timer to the time `now`, in nanoseconds since the timer
    /// was made. Before the firing time it does nothing and returns false;
    /// otherwise it fires, moving the firing time on by whole periods until
    /// it is no earlier than `now`, and returns true.
    pub fn tick_at(&mut self, now: u128) -> (fired: bool)
        requires
            old(self)@.duration > 0 || now <= old(self)@.next_firing,
            now + old(self)@.duration <= u128::MAX,
        ensures
            tick_outcome(old(self)@, final(self)@, fired, now),
    {
        if now < self.next_firing {
            return false;
        }
        let ghost start = self.next_firing as nat;
        let ghost d = self.duration as nat;
        let ghost mut k: nat = 0;
        assert(self.next_firing == start + k * d) by (nonlinear_arith)
            requires
                k == 0,
                self.next_firing == start,
        {
        }
        while self.next_firing < now
            invariant
                d == self.duration,
                d > 0 || now <= start,
                start <= self.next_firing,
                now + d <= u128::MAX,
                self.next_firing == start + k * d,
                self.next_firing < now + d || self.next_firing == start,
            decreases now + d - self.next_firing,
        {
            self.next_firing = self.next_firing + self.duration;
            proof {
                let k0 = k;
                k = k0 + 1;
                assert(start + k * d == start + k0 * d + d) by (nonlinear_arith)
                    requires
                        k == k0 + 1,
                {
                }
            }
        }
        assert(self.next_firing == advanced_by(start, k, d));
        true
    }

    /// Advances the timer to the current time; see [Self::tick_at].
    pub fn tick(&mut self) -> (fired: bool)
        requires
            old(self)@.duration > 0,
            old(self)@.duration <= max_duration_nanos(),
        ensures
            exists|now: u128| tick_outcome(old(self)@, final(self)@, fired, now),
    {
        let now = duration_nanos(elapsed_since(&self.origin));
        self.tick_at(now)
    }
}

} // verus!
