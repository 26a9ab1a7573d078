//! A fixed-period ticker that does not drift.
//!
//! Time is a plain `u64` count of some unit (the driver picks it, for
//! instance milliseconds since start). Each time the ticker ticks, its deadline
//! moves on by exactly one period from the previous deadline, not from the
//! moment of the poll, so slow iterations do not stretch later periods.
use vstd::prelude::*;

verus! {

/// A drift-free periodic ticker.
#[derive(Clone, Copy, Debug)]
pub struct Ticker {
    period: u64,
    deadline: u64,
}

/// `a + b`, held at `u64::MAX` where it would exceed it.
pub open spec fn add_capped(a: u64, b: u64) -> u64 {
    if a + b > u64::MAX { u64::MAX } else { (a + b) as u64 }
}

impl Ticker {
    /// The configured period.
    pub closed spec fn spec_period(&self) -> u64 {
        self.period
    }

    /// The earliest time at which the ticker ticks next.
    pub closed spec fn spec_deadline(&self) -> u64 {
        self.deadline
    }

    /// A ticker started at `start` whose first tick is one period later.
    pub fn new(start: u64, period: u64) -> (r: Ticker)
        ensures
            r.spec_period() == period,
            r.spec_deadline() == add_capped(start, period),
    {
        Ticker { period, deadline: start.saturating_add(period) }
    }

    /// The configured period.
    pub fn period(&self) -> (r: u64)
        ensures
            r == self.spec_period(),
    {
        self.period
    }

    /// The earliest time at which the ticker ticks next.
    pub fn deadline(&self) -> (r: u64)
        ensures
            r == self.spec_deadline(),
    {
        self.deadline
    }

    /// Polls the ticker at time `now`. It ticks exactly when `now` has reached
    /// the deadline, and then moves the deadline on by one period from the
    /// previous deadline; otherwise nothing changes.
    pub fn is_ready(&mut self, now: u64) -> (r: bool)
        ensures
            r == (now >= old(self).spec_deadline()),
            final(self).spec_period() == old(self).spec_period(),
            r ==> final(self).spec_deadline() == add_capped(
                old(self).spec_deadline(),
                old(self).spec_period(),
            ),
            !r ==> final(self).spec_deadline() == old(self).spec_deadline(),
    {
        if now >= self.deadline {
            self.deadline = self.deadline.saturating_add(self.period);
            true
        } else {
            false
        }
    }
}

} // verus!
