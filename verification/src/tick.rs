//! The fixed-tick loop.
//!
//! Both peers accumulate real elapsed time and run simulation steps of a
//! constant tick period, carrying the remainder over to the next frame. The
//! remainder divided by the tick period is the interpolation factor used for
//! rendering; it never drives the simulation.

use vstd::prelude::*;
use vstd::arithmetic::div_mod::{
    lemma_fundamental_div_mod, lemma_fundamental_div_mod_converse, lemma_mod_bound,
};

verus! {

/// The tick period both peers run at: 15.625 ms, that is 64 simulation steps
/// per second.
pub const TICK_PERIOD_US: u64 = 15_625;

/// Accumulates real elapsed time and hands out whole simulation steps of a
/// constant tick period.
pub struct FixedTickLoop {
    /// Length of one simulation step, in microseconds.
    tick_period: u64,
    /// Real time not yet consumed by a simulation step, in microseconds.
    accumulator: u64,
    /// Total number of simulation steps handed out so far.
    steps_taken: Ghost<int>,
    /// Total real time fed into the loop so far, in microseconds.
    elapsed: Ghost<int>,
}

impl FixedTickLoop {
    /// The tick period, in microseconds.
    pub closed spec fn period(self) -> int {
        self.tick_period as int
    }

    /// The time carried over to the next frame, in microseconds.
    pub closed spec fn carry(self) -> int {
        self.accumulator as int
    }

    /// The total number of simulation steps handed out so far.
    pub closed spec fn steps(self) -> int {
        self.steps_taken@
    }

    /// The total real time fed into the loop so far, in microseconds.
    pub closed spec fn total_elapsed(self) -> int {
        self.elapsed@
    }

    /// The loop's invariant: the accumulator is always less than one tick
    /// period, and every microsecond fed in is accounted for either by a
    /// step that was handed out or by the accumulator.
    pub closed spec fn wf(self) -> bool {
        &&& self.tick_period > 0
        &&& (self.accumulator as int) < self.period()
        &&& self.steps_taken@ >= 0
        &&& self.elapsed@ == self.steps() * self.period() + self.carry()
    }

    /// A fresh loop that has consumed no time.
    pub fn new(tick_period: u64) -> (r: FixedTickLoop)
        requires
            tick_period > 0,
        ensures
            r.wf(),
            r.period() == tick_period as int,
            r.carry() == 0,
            r.steps() == 0,
            r.total_elapsed() == 0,
    {
        proof {
            assert(0int * (tick_period as int) == 0) by (nonlinear_arith);
        }
        FixedTickLoop {
            tick_period,
            accumulator: 0,
            steps_taken: Ghost(0),
            elapsed: Ghost(0),
        }
    }

    /// Feeds `dt` microseconds of real time into the loop and returns how
    /// many whole simulation steps are due: one per tick period in the
    /// accumulated time, with the remainder carried over.
    pub fn advance(&mut self, dt: u64) -> (steps: u64)
        requires
            old(self).wf(),
            dt as int <= u64::MAX - old(self).period(),
        ensures
            final(self).wf(),
            final(self).period() == old(self).period(),
            steps as int == (old(self).carry() + dt) / old(self).period(),
            final(self).carry() == (old(self).carry() + dt) % old(self).period(),
            final(self).steps() == old(self).steps() + steps,
            final(self).total_elapsed() == old(self).total_elapsed() + dt,
    {
        let total: u64 = self.accumulator + dt;
        let steps: u64 = total / self.tick_period;
        let carry: u64 = total % self.tick_period;
        proof {
            lemma_fundamental_div_mod(total as int, self.tick_period as int);
            lemma_mod_bound(total as int, self.tick_period as int);
            let p = self.tick_period as int;
            let s0 = old(self).steps();
            let q = (total as int) / p;
            assert(p * q == q * p) by (nonlinear_arith);
            assert(((s0 + q) * p) == (s0 * p + q * p)) by (nonlinear_arith);
        }
        self.accumulator = carry;
        proof {
            self.steps_taken@ = self.steps_taken@ + steps as int;
            self.elapsed@ = self.elapsed@ + dt as int;
        }
        steps
    }

    /// The interpolation factor for rendering, as the exact rational
    /// `carry / period`; always in `[0, 1)`.
    pub fn interpolation_factor(&self) -> (r: (u64, u64))
        requires
            self.wf(),
        ensures
            r.0 as int == self.carry(),
            r.1 as int == self.period(),
            r.0 < r.1,
    {
        (self.accumulator, self.tick_period)
    }
}

/// Fixed-tick accounting: however the real time arrived at the loop, the
/// number of simulation steps it has handed out is exactly the whole number
/// of tick periods in the total elapsed time, and the carried remainder is
/// the rest of it, always in `[0, period)`.
pub proof fn lemma_tick_accounting(t: FixedTickLoop)
    requires
        t.wf(),
    ensures
        t.steps() == t.total_elapsed() / t.period(),
        t.carry() == t.total_elapsed() % t.period(),
        0 <= t.carry() < t.period(),
{
    lemma_fundamental_div_mod_converse(t.total_elapsed(), t.period(), t.steps(), t.carry());
}

} // verus!
