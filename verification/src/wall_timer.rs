//! A timer that fires at a fixed period of wall-clock time and keeps a
//! short history of its firings.

use vstd::prelude::*;
use std::time::{Duration, Instant};
use crate::clock::{duration_as_nanos, duration_nanos, elapsed_since, instant_now, max_duration_nanos};

verus! {

/// The most firings a timer remembers.
pub const FIRING_HISTORY: usize = 100;

/// The state of a timer, times in nanoseconds since the timer was made.
pub struct TimerModel {
    pub next_firing: u128,
    pub last_visited: u128,
    pub duration: u128,
    pub times_fired: usize,
    pub dt: u128,
    pub fired_last_tick: bool,
    pub firings: Seq<u128>,
}

/// The timer after a tick at time `now`: it records the time since the
/// previous tick (0 if the clock went backwards), and fires if `now` has
/// reached the next firing time, which then moves on by one period. The
/// history keeps the last [FIRING_HISTORY] firing times.
pub open spec fn tick_spec(m: TimerModel, now: u128) -> TimerModel {
    let fired = now >= m.next_firing;
    let dt = if now >= m.last_visited { (now - m.last_visited) as u128 } else { 0 };
    if fired {
        let pushed = m.firings.push(now);
        TimerModel {
            next_firing: (m.next_firing + m.duration) as u128,
            last_visited: now,
            duration: m.duration,
            times_fired: (m.times_fired + 1) as usize,
            dt,
            fired_last_tick: true,
            firings: if pushed.len() > FIRING_HISTORY { pushed.drop_first() } else { pushed },
        }
    } else {
        TimerModel { last_visited: now, dt, fired_last_tick: false, ..m }
    }
}

/// A tick at `now` can be taken without overflow.
pub open spec fn tick_allowed(m: TimerModel, now: u128) -> bool {
    now >= m.next_firing ==> {
        &&& m.next_firing + m.duration <= u128::MAX
        &&& m.times_fired < usize::MAX
    }
}

/// A timer that fires once per period of wall-clock time.
#[derive(Clone, Debug)]
pub struct WallTimer {
    origin: Instant,
    next_firing: u128,
    last_visited: u128,
    duration: u128,
    times_fired: usize,
    dt: u128,
    fired_last_tick: bool,
    firings: Vec<u128>,
}

impl View for WallTimer {
    type V = TimerModel;

    closed spec fn view(&self) -> TimerModel {
        TimerModel {
            next_firing: self.next_firing,
            last_visited: self.last_visited,
            duration: self.duration,
            times_fired: self.times_fired,
            dt: self.dt,
            fired_last_tick: self.fired_last_tick,
            firings: self.firings@,
        }
    }
}

impl WallTimer {
    /// A timer with the given period that fires at its first tick.
    pub fn with_dur(duration: Duration) -> (t: Self)
        ensures
            t@.next_firing == 0,
            t@.last_visited == 0,
            t@.duration == duration_as_nanos(duration),
            t@.duration <= max_duration_nanos(),
            t@.times_fired == 0,
            t@.dt == 0,
            !t@.fired_last_tick,
            t@.firings == Seq::<u128>::empty(),
    {
        let origin = instant_now();
        let d = duration_nanos(duration);
        WallTimer {
            origin,
            next_firing: 0,
            last_visited: 0,
            duration: d,
            times_fired: 0,
            dt: 0,
            fired_last_tick: false,
            firings: Vec::new(),
        }
    }

    /// Advances the timer to the time `now`, in nanoseconds since the timer
    /// was made. Returns whether it fired.
    pub fn tick_at(&mut self, now: u128) -> (fired: bool)
        requires
            tick_allowed(old(self)@, now),
        ensures
            final(self)@ == tick_spec(old(self)@, now),
            fired == final(self)@.fired_last_tick,
            old(self)@.firings.len() <= FIRING_HISTORY ==> final(self)@.firings.len() <= FIRING_HISTORY,
    {
        self.dt = if now >= self.last_visited { now - self.last_visited } else { 0 };
        self.last_visited = now;
        self.fired_last_tick = now >= self.next_firing;
        if self.fired_last_tick {
            self.next_firing = self.next_firing + self.duration;
            self.times_fired = self.times_fired + 1;
            let ghost pushed = self.firings@.push(now);
            self.firings.push(now);
            if self.firings.len() > FIRING_HISTORY {
                self.firings.remove(0);
                assert(self.firings@ =~= pushed.drop_first());
            }
        }
        self.fired_last_tick
    }

    /// Advances the timer to the current time. Returns whether it fired.
    pub fn tick(&mut self) -> (fired: bool)
        requires
            old(self)@.next_firing + old(self)@.duration <= u128::MAX,
            old(self)@.times_fired < usize::MAX,
        ensures
            exists|now: u128| final(self)@ == tick_spec(old(self)@, now),
            fired == final(self)@.fired_last_tick,
    {
        let now = duration_nanos(elapsed_since(&self.origin));
        self.tick_at(now)
    }

    /// The period of this timer, in nanoseconds.
    pub fn period_nanos(&self) -> (d: u128)
        ensures
            d == self@.duration,
    {
        self.duration
    }

    /// The remembered firing times, oldest first, in nanoseconds since the
    /// timer was made.
    pub fn firing_times(&self) -> (f: &[u128])
        ensures
            f@ == self@.firings,
    {
        self.firings.as_slice()
    }
}

/// Ticking never makes the history longer than [FIRING_HISTORY], and a
/// firing tick always remembers its own time last.
pub proof fn lemma_tick_history(m: TimerModel, now: u128)
    requires
        m.firings.len() <= FIRING_HISTORY,
    ensures
        tick_spec(m, now).firings.len() <= FIRING_HISTORY,
        tick_spec(m, now).fired_last_tick ==> tick_spec(m, now).firings.last() == now,
        tick_spec(m, now).fired_last_tick <==> now >= m.next_firing,
{
}

/// A tick fires exactly when its time has reached the next firing time. A
/// firing moves the next firing time on by exactly one period from where it
/// was, whenever the tick came, so late ticks do not make the schedule
/// drift; it counts one more firing and remembers the tick's time. A tick
/// that does not fire leaves the schedule, the count and the history alone.
/// Either way the tick is remembered as the last visit.
pub proof fn lemma_tick_keeps_schedule(m: TimerModel, now: u128)
    requires
        tick_allowed(m, now),
    ensures
        tick_spec(m, now).fired_last_tick <==> now >= m.next_firing,
        now >= m.next_firing ==> tick_spec(m, now).next_firing == m.next_firing + m.duration,
        now >= m.next_firing ==> tick_spec(m, now).times_fired == m.times_fired + 1,
        now >= m.next_firing ==> tick_spec(m, now).firings.last() == now,
        now < m.next_firing ==> tick_spec(m, now).next_firing == m.next_firing,
        now < m.next_firing ==> tick_spec(m, now).times_fired == m.times_fired,
        now < m.next_firing ==> tick_spec(m, now).firings == m.firings,
        tick_spec(m, now).last_visited == now,
        tick_spec(m, now).duration == m.duration,
{
    if now >= m.next_firing {
        let pushed = m.firings.push(now);
        if pushed.len() > FIRING_HISTORY {
            assert(pushed.drop_first().last() == now);
        }
    }
}

} // verus!
