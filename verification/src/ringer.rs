//! The debounced bell latch: audio-level threshold crossings arrive in
//! bursts, but at most one ring is latched per frequency window, and a
//! flush hands the latched event out exactly once. A rate limiter, not
//! a queue: a missed window never makes two events fire later.

use vstd::prelude::*;

verus! {

/// Nanoseconds that must pass between two latched rings.
pub const RING_INTERVAL_NANOS: u64 = 500_000_000;

/// The latch. `last_time` is the monotonic instant of the last ring
/// that was taken; `queued` says whether one is waiting to be flushed.
pub struct Ringer {
    pub frequency: u64,
    pub last_time: Option<u64>,
    pub queued: bool,
}

impl Ringer {
    /// A ring at `now` is taken when the window has elapsed; the very
    /// first ring is always taken.
    pub open spec fn fires(self, now: u64) -> bool {
        match self.last_time {
            None => true,
            Some(t) => now - t >= self.frequency,
        }
    }

    /// The state after `ring(now)`: latched with the window restarted
    /// when it fires, untouched otherwise.
    pub open spec fn ring_step(self, now: u64) -> Ringer {
        if self.fires(now) {
            Ringer { frequency: self.frequency, last_time: Some(now), queued: true }
        } else {
            self
        }
    }

    /// A fresh latch with the fixed half-second window and nothing
    /// queued.
    pub fn new() -> (r: Ringer)
        ensures
            r.frequency == RING_INTERVAL_NANOS,
            r.last_time is None,
            !r.queued,
    {
        Ringer { frequency: RING_INTERVAL_NANOS, last_time: None, queued: false }
    }

    /// Reports a threshold crossing at monotonic instant `now`.
    /// Within a live window this is a no-op; otherwise it latches one
    /// event and restarts the window.
    pub fn ring(&mut self, now: u64)
        requires
            old(self).last_time matches Some(t) ==> t <= now,
        ensures
            *final(self) == old(self).ring_step(now),
    {
        let take: bool = match self.last_time {
            Some(t) => now - t >= self.frequency,
            None => true,
        };
        if take {
            self.last_time = Some(now);
            self.queued = true;
        }
    }

    /// Hands out and clears the latch: `true` exactly once per latched
    /// ring, `false` until the next qualifying ring.
    pub fn flush(&mut self) -> (queued: bool)
        ensures
            queued == old(self).queued,
            !final(self).queued,
            final(self).last_time == old(self).last_time,
            final(self).frequency == old(self).frequency,
    {
        let res: bool = self.queued;
        self.queued = false;
        res
    }
}

impl Default for Ringer {
    /// Same as `Ringer::new`.
    fn default() -> (r: Self)
        ensures
            r.frequency == RING_INTERVAL_NANOS,
            r.last_time is None,
            !r.queued,
    {
        Ringer::new()
    }
}

/// Rings inside a window that has already latched are no-ops: at most
/// one event can be latched per frequency window, however many rings
/// arrive in it.
pub proof fn lemma_ring_rate_limited(r: Ringer, t0: u64, now: u64)
    requires
        r.last_time == Some(t0),
        t0 <= now,
        now - t0 < r.frequency,
    ensures
        r.ring_step(now) == r,
{
}

/// A taken ring latches exactly one event and restarts the window at
/// its own instant, whatever came before.
pub proof fn lemma_ring_latches_once(r: Ringer, now: u64)
    requires
        r.fires(now),
    ensures
        r.ring_step(now).queued,
        r.ring_step(now).last_time == Some(now),
        r.ring_step(now).frequency == r.frequency,
{
}

} // verus!
