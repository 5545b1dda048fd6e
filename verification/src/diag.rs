//! Diagnostic cadence: a repeating timer that decides, from the per-frame
//! time delta, when the once-per-second snapshot of the pointer-ray mapping
//! is due. Emitting the snapshot is the host's side; deciding is verified.

use vstd::prelude::*;

verus! {

/// A repeating timer over integer milliseconds. It fires each time the
/// accumulated elapsed time reaches its period, then keeps the remainder.
#[derive(Clone, Copy, PartialEq, Eq, Structural, Debug)]
pub struct RepeatTimer {
    pub period_ms: u32,
    pub elapsed_ms: u32,
}

impl RepeatTimer {
    /// A timer never carries a full period of elapsed time.
    pub open spec fn wf(self) -> bool {
        self.period_ms > 0 && self.elapsed_ms < self.period_ms
    }

    /// Creates a timer that fires every `period_ms` milliseconds.
    pub fn new(period_ms: u32) -> (t: RepeatTimer)
        requires
            period_ms > 0,
        ensures
            t == (RepeatTimer { period_ms, elapsed_ms: 0 }),
            t.wf(),
    {
        RepeatTimer { period_ms, elapsed_ms: 0 }
    }

    /// Advances the timer by one frame's delta. Returns whether the timer
    /// fired during this frame; the elapsed time wraps modulo the period.
    pub fn tick(&mut self, delta_ms: u32) -> (fired: bool)
        requires
            old(self).wf(),
        ensures
            final(self).wf(),
            final(self).period_ms == old(self).period_ms,
            fired == (old(self).elapsed_ms + delta_ms >= old(self).period_ms),
            final(self).elapsed_ms == (old(self).elapsed_ms + delta_ms) % (old(self).period_ms as int),
    {
        let total: u64 = self.elapsed_ms as u64 + delta_ms as u64;
        let fired: bool = total >= self.period_ms as u64;
        self.elapsed_ms = (total % self.period_ms as u64) as u32;
        fired
    }
}

} // verus!
