//! Particles, detectors, and the two measurement protocols.
//!
//! A `Particle` holds one spin, `SpinSuper` until a measurement collapses it
//! to `SpinUp` or `SpinDown`. A measurement is taken along one of three fixed
//! detector orientations (12, 3 and 9 o'clock), selected uniformly when a
//! protocol needs "a" direction. The `spooky` protocol forces perfect
//! anti-correlation whenever both sides happen to measure along the same
//! orientation; the `hidden_information` protocol instead fixes both spins in
//! advance from a shared classical plan.

use vstd::prelude::*;

use crate::random_source::{draw_of, next_state, RandomSource, UNIT_SCALE};

verus! {

/// A particle's spin: up, down, or not yet determined ("superposition").
/// `SpinSuper` is only valid before a measurement; every measurement
/// operation leaves the particle at `SpinUp` or `SpinDown`.
#[derive(Clone, Copy, Debug, PartialEq, Eq, Structural)]
pub enum Direction {
    SpinUp,
    SpinDown,
    SpinSuper,
}

/// One of the three fixed measurement orientations.
#[derive(Clone, Copy, Debug, PartialEq, Eq, Structural)]
pub enum Detector {
    /// 12 o'clock: the reference orientation.
    D12,
    /// 3 o'clock.
    D3,
    /// 9 o'clock.
    D9,
}

/// The pre-agreed classical strategy used by the hidden-variable protocol.
#[derive(Clone, Copy, Debug, PartialEq, Eq, Structural)]
pub enum Plan {
    /// Right particle always up, left always down.
    Trivial,
    /// Right particle down exactly on a 3 o'clock sample; left particle up
    /// exactly on a 3 o'clock sample.
    OddBall,
}

/// Two values created together; used both for a fresh pair of particles and
/// for the pair of spins a protocol returns.
#[derive(Debug)]
pub struct Pair<T> {
    pub lhs: T,
    pub rhs: T,
}

/// A simulated particle: a single mutable spin.
#[derive(Clone, Copy, Debug, PartialEq, Eq, Structural)]
pub struct Particle {
    pub spin: Direction,
}

/// First grid point mapped to the 3 o'clock orientation.
pub const ORIENTATION_SPLIT_LO: u64 = UNIT_SCALE / 3;

/// First grid point mapped to the 9 o'clock orientation.
pub const ORIENTATION_SPLIT_HI: u64 = 2 * (UNIT_SCALE / 3);

/// First grid point collapsing to `SpinUp`; draws below it collapse to
/// `SpinDown`. The quarter split is a design parameter of the model chosen
/// to produce the documented comparison statistics, not a physical angle.
pub const DOWN_SPLIT: u64 = UNIT_SCALE / 4;

/// Which orientation a unit draw selects: the unit interval is split into
/// three equal thirds, `[0, 1/3)` to 12, `[1/3, 2/3)` to 3, `[2/3, 1)` to 9.
pub open spec fn orientation_of(r: int) -> Detector {
    if r < ORIENTATION_SPLIT_LO {
        Detector::D12
    } else if r < ORIENTATION_SPLIT_HI {
        Detector::D3
    } else {
        Detector::D9
    }
}

/// Which spin a unit draw collapses to under a 3 or 9 o'clock measurement:
/// the first quarter of the unit interval yields down, the rest up.
pub open spec fn collapse_of(r: int) -> Direction {
    if r < DOWN_SPLIT {
        Direction::SpinDown
    } else {
        Direction::SpinUp
    }
}

/// The spin the right particle ends with under the spooky protocol, as a
/// function of the source state `s` when the protocol starts: the first draw
/// selects the right orientation; a 12 o'clock match forces the opposite of
/// the left particle's (always up) spin, otherwise the second draw collapses
/// the right particle independently.
pub open spec fn spooky_rhs_of_state(s: u64) -> Direction {
    if orientation_of(draw_of(s) as int) == Detector::D12 {
        Direction::SpinDown
    } else {
        collapse_of(draw_of(next_state(s)) as int)
    }
}

/// The source state after one spooky protocol run starting at state `s`:
/// one draw for the orientation, plus one more only when the orientations
/// did not match.
pub open spec fn spooky_state_of(s: u64) -> u64 {
    if orientation_of(draw_of(s) as int) == Detector::D12 {
        next_state(s)
    } else {
        next_state(next_state(s))
    }
}

/// The right particle's pre-agreed spin under `plan`, given its sampled
/// orientation.
pub open spec fn hidden_rhs_of(plan: Plan, o: Detector) -> Direction {
    match plan {
        Plan::Trivial => Direction::SpinUp,
        Plan::OddBall => if o == Detector::D3 {
            Direction::SpinDown
        } else {
            Direction::SpinUp
        },
    }
}

/// The left particle's pre-agreed spin under `plan`, given its sampled
/// orientation.
pub open spec fn hidden_lhs_of(plan: Plan, o: Detector) -> Direction {
    match plan {
        Plan::Trivial => Direction::SpinDown,
        Plan::OddBall => if o == Detector::D3 {
            Direction::SpinUp
        } else {
            Direction::SpinDown
        },
    }
}

impl Direction {
    /// A human-readable name for the spin, for reports.
    pub fn label(&self) -> (r: &'static str)
        ensures
            *self == Direction::SpinUp ==> r@ == "SpinUp"@,
            *self == Direction::SpinDown ==> r@ == "SpinDown"@,
            *self == Direction::SpinSuper ==> r@ == "SpinSuper"@,
    {
        match *self {
            Direction::SpinUp => "SpinUp",
            Direction::SpinDown => "SpinDown",
            Direction::SpinSuper => "SpinSuper",
        }
    }
}

impl Detector {
    /// A human-readable name for the orientation, for reports.
    pub fn label(&self) -> (r: &'static str)
        ensures
            *self == Detector::D12 ==> r@ == "12 oclock"@,
            *self == Detector::D3 ==> r@ == "3 oclock"@,
            *self == Detector::D9 ==> r@ == "9 oclock"@,
    {
        match *self {
            Detector::D12 => "12 oclock",
            Detector::D3 => "3 oclock",
            Detector::D9 => "9 oclock",
        }
    }
}

/// The orientation a given unit draw selects. The draw grid covers exactly
/// `[0, 1)`; a draw standing for 1.0 does not exist, so every draw falls in
/// exactly one of the three sub-ranges.
pub fn orientation_from(r: u64) -> (d: Detector)
    requires
        r < UNIT_SCALE,
    ensures
        d == orientation_of(r as int),
{
    if r < ORIENTATION_SPLIT_LO {
        Detector::D12
    } else if r < ORIENTATION_SPLIT_HI {
        Detector::D3
    } else {
        Detector::D9
    }
}

/// The spin a given unit draw collapses a 3 or 9 o'clock measurement to.
pub fn collapse_from(r: u64) -> (spin: Direction)
    requires
        r < UNIT_SCALE,
    ensures
        spin == collapse_of(r as int),
        spin != Direction::SpinSuper,
{
    if r < DOWN_SPLIT {
        Direction::SpinDown
    } else {
        Direction::SpinUp
    }
}

impl Particle {
    /// Create an entangled pair: two particles, both still undetermined.
    pub fn new_pair() -> (pair: Pair<Particle>)
        ensures
            pair.lhs.spin == Direction::SpinSuper,
            pair.rhs.spin == Direction::SpinSuper,
    {
        let d1 = Direction::SpinSuper;
        let d2 = Direction::SpinSuper;
        let p1 = Particle { spin: d1 };
        let p2 = Particle { spin: d2 };
        Pair { lhs: p1, rhs: p2 }
    }

    /// Measure this particle along `detector`, collapsing its spin.
    ///
    /// Along the 12 o'clock reference orientation the outcome is
    /// deterministic: always up, with no randomness consumed. Along 3 or 9
    /// o'clock one unit draw is consumed and the first quarter of the unit
    /// interval collapses to down, the rest to up. The particle never stays
    /// undetermined.
    pub fn measure(&mut self, detector: &Detector, source: &mut RandomSource) -> (spin: Direction)
        ensures
            spin == final(self).spin,
            *detector == Detector::D12 ==> final(self).spin == Direction::SpinUp
                && *final(source) == *old(source),
            *detector != Detector::D12 ==> final(self).spin == collapse_of(
                draw_of(old(source).state) as int,
            ) && final(source).state == next_state(old(source).state),
            final(self).spin != Direction::SpinSuper,
    {
        self.spin = match *detector {
            Detector::D12 => Direction::SpinUp,
            _ => {
                let r = source.next_unit();
                collapse_from(r)
            },
        };
        self.spin
    }

    /// Select a detector orientation uniformly at random: each of the three
    /// orientations gets exactly one third of the unit interval.
    pub fn get_detector_direction(source: &mut RandomSource) -> (detector: Detector)
        ensures
            detector == orientation_of(draw_of(old(source).state) as int),
            final(source).state == next_state(old(source).state),
    {
        let r = source.next_unit();
        orientation_from(r)
    }

    /// The entanglement-style protocol: measure this (left) particle along
    /// the fixed 12 o'clock reference orientation, select an independent
    /// orientation for `friend` (the right particle), and either force the
    /// exact opposite spin on `friend` when the orientations coincide, or
    /// measure `friend` independently when they do not.
    ///
    /// The defining anti-correlation invariant: whenever the right
    /// orientation also came out 12 o'clock, the two returned spins are
    /// unequal.
    pub fn spooky(&mut self, friend: &mut Particle, source: &mut RandomSource) -> (spins: Pair<
        Direction,
    >)
        ensures
            final(self).spin == Direction::SpinUp,
            final(friend).spin == spooky_rhs_of_state(old(source).state),
            final(source).state == spooky_state_of(old(source).state),
            spins.lhs == final(self).spin,
            spins.rhs == final(friend).spin,
            spins.lhs != Direction::SpinSuper,
            spins.rhs != Direction::SpinSuper,
            orientation_of(draw_of(old(source).state) as int) == Detector::D12 ==> spins.lhs
                != spins.rhs,
    {
        let detector1 = Detector::D12;
        let detector2 = Particle::get_detector_direction(source);

        self.measure(&detector1, source);

        if detector2 == detector1 {
            friend.spin = match self.spin {
                Direction::SpinUp => Direction::SpinDown,
                _ => Direction::SpinUp,
            };
        } else {
            friend.measure(&detector2, source);
        }

        Pair { lhs: self.spin, rhs: friend.spin }
    }

    /// The classical hidden-variable protocol: each particle independently
    /// samples an orientation, then takes the spin the pre-agreed `plan`
    /// assigns to that orientation — the right particle first, then the
    /// left. No information flows between the two at measurement time.
    ///
    /// Under either plan, whenever the two sampled orientations happen to be
    /// equal the two spins are unequal; under `Trivial` they are unequal
    /// always.
    pub fn hidden_information(
        &mut self,
        friend: &mut Particle,
        plan: Plan,
        source: &mut RandomSource,
    ) -> (spins: Pair<Direction>)
        ensures
            final(friend).spin == hidden_rhs_of(
                plan,
                orientation_of(draw_of(old(source).state) as int),
            ),
            final(self).spin == hidden_lhs_of(
                plan,
                orientation_of(draw_of(next_state(old(source).state)) as int),
            ),
            final(source).state == next_state(next_state(old(source).state)),
            spins.lhs == final(self).spin,
            spins.rhs == final(friend).spin,
            spins.lhs != Direction::SpinSuper,
            spins.rhs != Direction::SpinSuper,
            plan == Plan::Trivial ==> spins.lhs != spins.rhs,
            orientation_of(draw_of(old(source).state) as int) == orientation_of(
                draw_of(next_state(old(source).state)) as int,
            ) ==> spins.lhs != spins.rhs,
    {
        let detector = Particle::get_detector_direction(source);
        let spin = match plan {
            Plan::Trivial => Direction::SpinUp,
            Plan::OddBall => match detector {
                Detector::D3 => Direction::SpinDown,
                _ => Direction::SpinUp,
            },
        };
        friend.spin = spin;

        let detector = Particle::get_detector_direction(source);
        let spin = match plan {
            Plan::Trivial => Direction::SpinDown,
            Plan::OddBall => match detector {
                Detector::D3 => Direction::SpinUp,
                _ => Direction::SpinDown,
            },
        };
        self.spin = spin;

        Pair { lhs: self.spin, rhs: friend.spin }
    }
}

} // verus!
