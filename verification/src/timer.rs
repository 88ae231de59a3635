//! Fixed-interval timers: each stateful component gates its logic behind an
//! accumulating timer that fires a one-shot "due" signal once per interval
//! and then restarts. A timer fires at most once per frame, however large
//! the frame's elapsed time — it never catches up.

use vstd::prelude::*;

verus! {

/// A repeating fixed-interval timer, accumulating elapsed milliseconds.
#[derive(Clone, Copy, Debug, PartialEq, Eq, Structural)]
pub struct TickTimer {
    pub interval_ms: u32,
    pub elapsed_ms: u32,
}

/// A valid timer has a positive interval and never holds a full interval
/// of elapsed time between frames.
pub open spec fn timer_wf(t: TickTimer) -> bool {
    &&& t.interval_ms >= 1
    &&& t.elapsed_ms < t.interval_ms
}

/// Whether adding a frame's elapsed time makes the timer fire.
pub open spec fn timer_fires(t: TickTimer, delta_ms: u32) -> bool {
    t.elapsed_ms + delta_ms >= t.interval_ms
}

/// The timer after a frame: it either accumulates the elapsed time or,
/// when it fires, restarts from zero.
pub open spec fn ticked_timer(t: TickTimer, delta_ms: u32) -> TickTimer {
    TickTimer {
        interval_ms: t.interval_ms,
        elapsed_ms: if timer_fires(t, delta_ms) {
            0
        } else {
            (t.elapsed_ms + delta_ms) as u32
        },
    }
}

impl TickTimer {
    /// A fresh timer with the given interval, starting empty.
    pub fn new(interval_ms: u32) -> (t: TickTimer)
        requires
            interval_ms >= 1,
        ensures
            timer_wf(t),
            t.interval_ms == interval_ms,
            t.elapsed_ms == 0,
    {
        TickTimer { interval_ms, elapsed_ms: 0 }
    }

    /// Feeds one frame's elapsed time to the timer; the result says whether
    /// the timer fired (at most once per frame).
    pub fn tick(&mut self, delta_ms: u32) -> (due: bool)
        requires
            timer_wf(*old(self)),
        ensures
            timer_wf(*final(self)),
            due == timer_fires(*old(self), delta_ms),
            *final(self) == ticked_timer(*old(self), delta_ms),
    {
        let sum: u64 = self.elapsed_ms as u64 + delta_ms as u64;
        if sum >= self.interval_ms as u64 {
            self.elapsed_ms = 0;
            true
        } else {
            self.elapsed_ms = sum as u32;
            false
        }
    }

    /// Empties the accumulator, as on a reset of the whole simulation.
    pub fn restart(&mut self)
        requires
            timer_wf(*old(self)),
        ensures
            timer_wf(*final(self)),
            final(self).interval_ms == old(self).interval_ms,
            final(self).elapsed_ms == 0,
    {
        self.elapsed_ms = 0;
    }
}

} // verus!
