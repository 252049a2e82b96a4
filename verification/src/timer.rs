//! Repeating countdown timers that drive the two spawners.

use vstd::prelude::*;

use crate::constants::MAX_TICK_MS;

verus! {

/// A repeating countdown: it accumulates elapsed milliseconds and fires
/// once on every tick in which the accumulated time reaches the period,
/// keeping the overshoot for the next round.
#[derive(Clone, Copy, Debug, PartialEq, Eq, Structural)]
pub struct RepeatTimer {
    /// Length of one round, in milliseconds.
    pub period: i64,
    /// Time accumulated in the current round, in milliseconds.
    pub elapsed: i64,
}

impl RepeatTimer {
    pub open spec fn wf(self) -> bool {
        &&& 0 < self.period <= MAX_TICK_MS
        &&& 0 <= self.elapsed < self.period
    }

    /// Whether advancing by `dt` completes the current round.
    pub open spec fn spec_fires(self, dt: int) -> bool {
        self.elapsed + dt >= self.period
    }

    /// The timer after advancing by `dt`: the accumulated time, reduced
    /// by as many whole periods as elapsed.
    pub open spec fn spec_after(self, dt: int) -> RepeatTimer {
        RepeatTimer {
            period: self.period,
            elapsed: ((self.elapsed + dt) % (self.period as int)) as i64,
        }
    }

    pub fn new(period: i64) -> (timer: RepeatTimer)
        requires
            0 < period <= MAX_TICK_MS,
        ensures
            timer.period == period,
            timer.elapsed == 0,
            timer.wf(),
    {
        RepeatTimer { period, elapsed: 0 }
    }

    /// Rewind to the start of a round, keeping the period.
    pub fn reset(&mut self)
        ensures
            final(self).period == old(self).period,
            final(self).elapsed == 0,
    {
        self.elapsed = 0;
    }

    /// Advance by `dt` milliseconds; true iff a round completed.
    pub fn tick(&mut self, dt: i64) -> (fired: bool)
        requires
            old(self).wf(),
            0 <= dt <= MAX_TICK_MS,
        ensures
            fired == old(self).spec_fires(dt as int),
            *final(self) == old(self).spec_after(dt as int),
            final(self).wf(),
    {
        let total: i64 = self.elapsed + dt;
        if total >= self.period {
            self.elapsed = total % self.period;
            true
        } else {
            proof {
                vstd::arithmetic::div_mod::lemma_small_mod(total as nat, self.period as nat);
            }
            self.elapsed = total;
            false
        }
    }
}

} // verus!
