//! The fixed-cadence pacing description for one motor.
//!
//! The caller owns the wall clock: it records the absolute start instant,
//! sleeps, and reports plain elapsed nanosecond counts back in.  This module
//! holds the decisions of the pacing loop — which fraction a tick stands at,
//! when the loop is over, and how long to pause before the next tick.

use vstd::prelude::*;

verus! {

/// The share of the total motion duration that has elapsed, kept as an
/// exact ratio of two nanosecond counts rather than a rounded quotient.
#[derive(Clone, Copy, Debug, PartialEq, Eq, Structural)]
pub struct Fraction {
    pub num: u64,
    pub den: u64,
}

impl Fraction {
    /// A fraction is only meaningful over a nonzero denominator.
    pub open spec fn wf(&self) -> bool {
        self.den > 0
    }
}

/// One motor's real-time pacing: the total motion duration and the fixed
/// cadence at which new steps may be commanded, both in nanoseconds.
#[derive(Clone, Copy, Debug, PartialEq, Eq, Structural)]
pub struct IntervalTimer {
    pub duration: u64,
    pub interval: u64,
}

impl IntervalTimer {
    /// A timer paces a motion of nonzero duration.
    pub open spec fn wf(&self) -> bool {
        self.duration > 0
    }

    /// The fraction of the whole duration that `elapsed` nanoseconds cover.
    /// It may exceed one; interpolation clamps, not the timer.
    pub fn fraction_at(&self, elapsed: u64) -> (r: Fraction)
        requires
            self.wf(),
        ensures
            r.num == elapsed,
            r.den == self.duration,
            r.wf(),
    {
        Fraction { num: elapsed, den: self.duration }
    }

    /// The loop ends, successfully, on the first tick whose elapsed time
    /// has passed the whole duration.
    pub fn is_done(&self, elapsed: u64) -> (r: bool)
        ensures
            r == (elapsed > self.duration),
    {
        elapsed > self.duration
    }

    /// How long to pause before the next tick: the cadence interval less
    /// the time the tick's own work consumed, never negative.  A tick that
    /// overran its interval is followed immediately, not skipped.
    pub fn sleep_time(&self, processing: u64) -> (r: u64)
        ensures
            r == if processing >= self.interval {
                0u64
            } else {
                (self.interval - processing) as u64
            },
    {
        self.interval.saturating_sub(processing)
    }
}

} // verus!
