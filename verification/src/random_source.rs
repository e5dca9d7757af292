//! The injectable source of randomness.
//!
//! Every probabilistic step of the simulation consumes one *unit draw*: an
//! integer chosen from `[0, UNIT_SCALE)`, standing for the sub-interval
//! `[draw / UNIT_SCALE, (draw + 1) / UNIT_SCALE)` of the unit interval.
//! `UNIT_SCALE` is divisible by both 3 and 4, so the one-third split used to
//! pick a detector orientation and the one-quarter split used to collapse a
//! spin are exact partitions of the grid, with no gap and no overlap.
//!
//! The source itself is a seedable xorshift generator. Its step function is
//! a plain spec-level function of the current state, so callers know exactly
//! which draws a protocol consumed and what state the source is left in.

use vstd::prelude::*;

verus! {

/// Number of grid points the unit interval is split into: `3 * 2^32`,
/// divisible by 3 (orientation selection) and by 4 (spin collapse).
pub const UNIT_SCALE: u64 = 12884901888;

/// A seedable pseudo-random source handing out uniform draws in
/// `[0, UNIT_SCALE)`. One instance drives one experiment; tests inject a
/// known seed to make runs reproducible.
#[derive(Clone, Copy, Debug, PartialEq, Eq, Structural)]
pub struct RandomSource {
    pub state: u64,
}

/// One xorshift step of the generator state.
pub open spec fn next_state(s: u64) -> u64 {
    let a = s ^ (s << 13);
    let b = a ^ (a >> 7);
    b ^ (b << 17)
}

/// The unit draw produced by stepping a source whose state is `s`.
pub open spec fn draw_of(s: u64) -> u64 {
    next_state(s) % UNIT_SCALE
}

impl RandomSource {
    /// A fresh source. A zero seed is a fixed point of the xorshift step, so
    /// it is replaced by a fixed nonzero one.
    pub fn new(seed: u64) -> (r: RandomSource)
        ensures
            r.state == (if seed == 0 { 0x9e3779b97f4a7c15u64 } else { seed }),
    {
        if seed == 0 {
            RandomSource { state: 0x9e3779b97f4a7c15u64 }
        } else {
            RandomSource { state: seed }
        }
    }

    /// Draw the next unit sample, advancing the state by one xorshift step.
    pub fn next_unit(&mut self) -> (r: u64)
        ensures
            final(self).state == next_state(old(self).state),
            r == draw_of(old(self).state),
            r < UNIT_SCALE,
    {
        let s = self.state;
        let a = s ^ (s << 13);
        let b = a ^ (a >> 7);
        let c = b ^ (b << 17);
        self.state = c;
        c % UNIT_SCALE
    }
}

} // verus!
