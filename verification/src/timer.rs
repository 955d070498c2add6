//! Fixed-interval repeating timers. A timer accumulates elapsed time and
//! fires exactly when the accumulation reaches its period, after which the
//! accumulator resets to zero. Movement is gated by a 200 ms timer, food
//! spawning by an independent 1000 ms timer.

use vstd::prelude::*;

verus! {

/// Period of the timer that gates snake movement, in milliseconds.
pub const MOVE_PERIOD_MS: u64 = 200;

/// Period of the timer that gates food spawning, in milliseconds.
pub const SPAWN_PERIOD_MS: u64 = 1000;

/// Whether a timer with the given accumulation and period fires when `delta`
/// more time elapses.
pub open spec fn spec_fires(elapsed: nat, period: nat, delta: nat) -> bool {
    elapsed + delta >= period
}

/// The accumulation after `delta` more time elapses: reset to zero on a
/// fire, the running sum otherwise.
pub open spec fn spec_elapsed_after(elapsed: nat, period: nat, delta: nat) -> nat {
    if spec_fires(elapsed, period, delta) {
        0
    } else {
        elapsed + delta
    }
}

/// A repeating countdown: fires each time the accumulated elapsed time
/// reaches the period, then starts over.
#[derive(Debug, Clone, Copy, PartialEq, Eq, Structural)]
pub struct RepeatingTimer {
    pub elapsed_ms: u64,
    pub period_ms: u64,
}

impl RepeatingTimer {
    /// A timer is well formed when its period is positive and its
    /// accumulator has not yet reached the period.
    pub open spec fn wf(self) -> bool {
        0 < self.period_ms && self.elapsed_ms < self.period_ms
    }

    /// A fresh timer with nothing accumulated.
    pub fn new(period_ms: u64) -> (r: RepeatingTimer)
        requires
            period_ms > 0,
        ensures
            r == (RepeatingTimer { elapsed_ms: 0, period_ms }),
            r.wf(),
    {
        RepeatingTimer { elapsed_ms: 0, period_ms }
    }

    /// Accumulate `delta_ms` more elapsed time and report whether the timer
    /// fired. On a fire the accumulator resets; the period never changes.
    pub fn tick(&mut self, delta_ms: u64) -> (fired: bool)
        requires
            old(self).wf(),
            delta_ms <= u64::MAX - old(self).period_ms,
        ensures
            final(self).wf(),
            final(self).period_ms == old(self).period_ms,
            fired == spec_fires(
                old(self).elapsed_ms as nat,
                old(self).period_ms as nat,
                delta_ms as nat,
            ),
            final(self).elapsed_ms as nat == spec_elapsed_after(
                old(self).elapsed_ms as nat,
                old(self).period_ms as nat,
                delta_ms as nat,
            ),
    {
        let total = self.elapsed_ms + delta_ms;
        if total >= self.period_ms {
            self.elapsed_ms = 0;
            true
        } else {
            self.elapsed_ms = total;
            false
        }
    }
}

} // verus!
