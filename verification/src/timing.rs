use vstd::prelude::*;

verus! {

/// Largest clock reading the scheduler accepts, in microseconds. This
/// is a machine limit only (about 146 thousand years of run time): it
/// keeps the due-time arithmetic inside `u64`.
pub const TIME_LIMIT: u64 = 0x4000_0000_0000_0000;

/// Largest period a timer may have, in microseconds (1000 seconds).
pub const PERIOD_LIMIT: u64 = 1_000_000_000;

/// A fixed-interval timer that decouples the simulation rate from the
/// render rate. It holds no clock of its own: every query takes the
/// current clock reading in microseconds, so the timer's behavior is a
/// function of the readings it is handed.
#[derive(Clone, Copy, PartialEq, Eq, Structural, Debug)]
pub struct IntervalTimer {
    pub period_us: u64,
    pub next_due_us: u64,
}

impl IntervalTimer {
    /// The period is usable and the next due time has not run away
    /// past the clock limit.
    pub open spec fn wf(self) -> bool {
        1 <= self.period_us <= PERIOD_LIMIT
        && self.next_due_us <= TIME_LIMIT + PERIOD_LIMIT
    }

    /// A timer whose first firing falls one period from now.
    pub fn new(period_us: u64, now_us: u64) -> (t: IntervalTimer)
        requires
            1 <= period_us <= PERIOD_LIMIT,
            now_us <= TIME_LIMIT,
        ensures
            t.wf(),
            t.period_us == period_us,
            t.next_due_us == now_us + period_us,
    {
        IntervalTimer { period_us, next_due_us: now_us + period_us }
    }

    /// One catch-up step: fires exactly when a full period has elapsed,
    /// consuming exactly one period's worth of time, so late callers
    /// can drain pending ticks by calling this in a loop.
    pub fn tick(&mut self, now_us: u64) -> (fired: bool)
        requires
            old(self).wf(),
            now_us <= TIME_LIMIT,
        ensures
            final(self).wf(),
            final(self).period_us == old(self).period_us,
            fired == (old(self).next_due_us <= now_us),
            fired ==> final(self).next_due_us == old(self).next_due_us + old(self).period_us,
            !fired ==> *final(self) == *old(self),
    {
        if self.next_due_us <= now_us {
            self.next_due_us = self.next_due_us + self.period_us;
            true
        } else {
            false
        }
    }

    /// Consume every pending period at once and say how many there
    /// were: a single-shot "is a frame due" query. A renderer treats
    /// any nonzero count as one due frame rather than catching up on
    /// missed ones.
    pub fn exhaust(&mut self, now_us: u64) -> (count: u64)
        requires
            old(self).wf(),
            now_us <= TIME_LIMIT,
        ensures
            final(self).wf(),
            final(self).period_us == old(self).period_us,
            (count > 0) == (old(self).next_due_us <= now_us),
            count == 0 ==> *final(self) == *old(self),
            final(self).next_due_us == old(self).next_due_us + count * old(self).period_us,
            count > 0 ==> now_us < final(self).next_due_us <= now_us + old(self).period_us,
    {
        let mut count: u64 = 0;
        while self.next_due_us <= now_us
            invariant
                1 <= self.period_us <= PERIOD_LIMIT,
                now_us <= TIME_LIMIT,
                self.period_us == old(self).period_us,
                self.next_due_us <= TIME_LIMIT + PERIOD_LIMIT,
                self.next_due_us == old(self).next_due_us + count * self.period_us,
                count == 0 ==> *self == *old(self),
                count > 0 ==> old(self).next_due_us <= now_us,
                count > 0 ==> self.next_due_us <= now_us + self.period_us,
                count <= TIME_LIMIT + PERIOD_LIMIT,
            decreases now_us + self.period_us - self.next_due_us,
        {
            proof {
                assert((count + 1) * self.period_us == count * self.period_us
                    + self.period_us) by (nonlinear_arith);
                assert(count + 1 <= (count + 1) * self.period_us) by (nonlinear_arith)
                    requires
                        self.period_us >= 1,
                        count >= 0,
                ;
            }
            self.next_due_us = self.next_due_us + self.period_us;
            count = count + 1;
        }
        count
    }
}

} // verus!
