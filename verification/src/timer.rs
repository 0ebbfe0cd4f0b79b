//! The tick scheduler: a single accumulating timer with a fixed interval
//! that turns wall-clock elapsed time into discrete movement steps, at
//! most one per check.

use vstd::prelude::*;

verus! {

/// The movement interval in microseconds, one twelfth of a second.
pub const TICK_MICROS: u64 = 83_333;

/// Accumulates elapsed time and fires one step each time the accumulator
/// reaches the interval, carrying the remainder over.
#[derive(Copy, Clone, PartialEq, Eq, Structural, Debug)]
pub struct MoveTimer {
    pub accumulated_micros: u64,
    pub interval_micros: u64,
}

impl MoveTimer {
    /// A timer only fires meaningfully with a positive interval.
    pub open spec fn wf(self) -> bool {
        self.interval_micros > 0
    }

    /// A fresh timer with nothing accumulated.
    pub fn new(interval_micros: u64) -> (r: MoveTimer)
        requires
            interval_micros > 0,
        ensures
            r.wf(),
            r.interval_micros == interval_micros,
            r.accumulated_micros == 0,
    {
        MoveTimer { accumulated_micros: 0, interval_micros }
    }

    /// Adds a frame's elapsed time; fires exactly when the accumulator
    /// reaches the interval, and then subtracts the interval once, so the
    /// remainder never drops below zero and at most one step is signalled.
    pub fn tick(&mut self, elapsed_micros: u64) -> (fired: bool)
        requires
            old(self).wf(),
            old(self).accumulated_micros + elapsed_micros <= u64::MAX,
        ensures
            final(self).wf(),
            final(self).interval_micros == old(self).interval_micros,
            fired == (old(self).accumulated_micros + elapsed_micros >= old(
                self,
            ).interval_micros),
            fired ==> final(self).accumulated_micros == old(self).accumulated_micros
                + elapsed_micros - old(self).interval_micros,
            !fired ==> final(self).accumulated_micros == old(self).accumulated_micros
                + elapsed_micros,
    {
        self.accumulated_micros = self.accumulated_micros + elapsed_micros;
        if self.accumulated_micros >= self.interval_micros {
            self.accumulated_micros = self.accumulated_micros - self.interval_micros;
            true
        } else {
            false
        }
    }
}

} // verus!
