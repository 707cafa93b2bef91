//! Counting calls and keeping the instants of the most recent ones, from
//! which a rate of calls per second can be worked out.

use vstd::prelude::*;
use std::time::Instant;
use crate::clock::instant_now;

verus! {

/// The most instants a rate calculator keeps.
pub const RATE_WINDOW: usize = 100;

/// The window after one more call at `now`: `now` is added last, and the
/// oldest instant is dropped when the window would grow past
/// [RATE_WINDOW].
pub open spec fn window_after(w: Seq<Instant>, now: Instant) -> Seq<Instant> {
    let pushed = w.push(now);
    if pushed.len() > RATE_WINDOW { pushed.drop_first() } else { pushed }
}

/// Counts calls and keeps the instants of the latest [RATE_WINDOW] of
/// them.
#[derive(Debug)]
pub struct RateCalculator {
    buffer: Vec<Instant>,
    times_called: u64,
}

impl RateCalculator {
    /// The instants kept, oldest first.
    pub closed spec fn spec_window(&self) -> Seq<Instant> {
        self.buffer@
    }

    /// The number of calls so far.
    pub closed spec fn spec_count(&self) -> u64 {
        self.times_called
    }

    /// No calls yet.
    pub fn new() -> (r: Self)
        ensures
            r.spec_window() == Seq::<Instant>::empty(),
            r.spec_count() == 0,
    {
        RateCalculator { buffer: Vec::new(), times_called: 0 }
    }

    /// Records a call now.
    pub fn update_rate(&mut self)
        requires
            old(self).spec_count() < u64::MAX,
        ensures
            final(self).spec_count() == old(self).spec_count() + 1,
            exists|now: Instant| final(self).spec_window() == window_after(old(self).spec_window(), now),
    {
        let now = instant_now();
        let ghost before = self.buffer@;
        self.buffer.push(now);
        if self.buffer.len() > RATE_WINDOW {
            self.buffer.remove(0);
            assert(self.buffer@ =~= before.push(now).drop_first());
        }
        assert(self.spec_window() == window_after(old(self).spec_window(), now));
        self.times_called = self.times_called + 1;
    }

    /// The instants kept, oldest first.
    pub fn window(&self) -> (w: &[Instant])
        ensures
            w@ == self.spec_window(),
    {
        self.buffer.as_slice()
    }

    /// The number of calls so far.
    pub fn count(&self) -> (n: u64)
        ensures
            n == self.spec_count(),
    {
        self.times_called
    }
}

/// The window never holds more than [RATE_WINDOW] instants, and the
/// latest call is always its last.
pub proof fn lemma_window_bounded(w: Seq<Instant>, now: Instant)
    requires
        w.len() <= RATE_WINDOW,
    ensures
        window_after(w, now).len() <= RATE_WINDOW,
        window_after(w, now).last() == now,
{
}

} // verus!
