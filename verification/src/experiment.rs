//! Trial aggregation: run many independent protocol trials and report how
//! often the two measured spins differ.
//!
//! Each runner repeats `trials` times: build a fresh pair, run the protocol,
//! and count the trials whose two spins came out unequal. Because the random
//! source is a deterministic state machine, the count each runner returns is
//! an exact recursive function of the source's starting state. A run over
//! zero trials yields an explicit no-data report instead of a division by
//! zero.

use vstd::prelude::*;

use crate::particle::{
    hidden_lhs_of, hidden_rhs_of, orientation_of, spooky_rhs_of_state, spooky_state_of, Direction,
    Particle, Plan,
};
use crate::random_source::{draw_of, next_state, RandomSource, UNIT_SCALE};

verus! {

/// Whether one spooky trial started at source state `s` ends with unequal
/// spins: the left spin is always up, so the trial differs exactly when the
/// right particle came out down.
pub open spec fn spooky_trial_differs(s: u64) -> bool {
    spooky_rhs_of_state(s) == Direction::SpinDown
}

/// How many of `trials` consecutive spooky trials, starting at source state
/// `s`, end with unequal spins.
pub open spec fn spooky_diff_count(s: u64, trials: nat) -> nat
    decreases trials,
{
    if trials == 0 {
        0
    } else {
        (if spooky_trial_differs(s) {
            1nat
        } else {
            0nat
        }) + spooky_diff_count(spooky_state_of(s), (trials - 1) as nat)
    }
}

/// The source state after `trials` consecutive spooky trials starting at
/// state `s`.
pub open spec fn spooky_state_after(s: u64, trials: nat) -> u64
    decreases trials,
{
    if trials == 0 {
        s
    } else {
        spooky_state_after(spooky_state_of(s), (trials - 1) as nat)
    }
}

/// The plan one mixed hidden-variable trial uses: a unit draw below
/// `oddball_weight` picks `OddBall`, any other picks `Trivial`, so the plan
/// is `OddBall` with probability `oddball_weight / UNIT_SCALE`.
pub open spec fn plan_choice(r: int, oddball_weight: u64) -> Plan {
    if r < oddball_weight {
        Plan::OddBall
    } else {
        Plan::Trivial
    }
}

/// Whether one mixed hidden-variable trial started at source state `s` ends
/// with unequal spins: the first draw picks the plan, the second the right
/// particle's orientation, the third the left particle's.
pub open spec fn hidden_trial_differs(s: u64, oddball_weight: u64) -> bool {
    let plan = plan_choice(draw_of(s) as int, oddball_weight);
    let s1 = next_state(s);
    let o_rhs = orientation_of(draw_of(s1) as int);
    let s2 = next_state(s1);
    let o_lhs = orientation_of(draw_of(s2) as int);
    hidden_lhs_of(plan, o_lhs) != hidden_rhs_of(plan, o_rhs)
}

/// The source state after one mixed hidden-variable trial: three draws.
pub open spec fn hidden_state_of(s: u64) -> u64 {
    next_state(next_state(next_state(s)))
}

/// How many of `trials` consecutive mixed hidden-variable trials, starting
/// at source state `s`, end with unequal spins.
pub open spec fn hidden_diff_count(s: u64, oddball_weight: u64, trials: nat) -> nat
    decreases trials,
{
    if trials == 0 {
        0
    } else {
        (if hidden_trial_differs(s, oddball_weight) {
            1nat
        } else {
            0nat
        }) + hidden_diff_count(hidden_state_of(s), oddball_weight, (trials - 1) as nat)
    }
}

/// The source state after `trials` consecutive mixed hidden-variable trials.
pub open spec fn hidden_state_after(s: u64, trials: nat) -> u64
    decreases trials,
{
    if trials == 0 {
        s
    } else {
        hidden_state_after(hidden_state_of(s), (trials - 1) as nat)
    }
}

/// Run `trials` spooky trials and return how many ended with unequal spins.
pub fn get_spooky(trials: usize, source: &mut RandomSource) -> (num_different: usize)
    ensures
        num_different == spooky_diff_count(old(source).state, trials as nat),
        num_different <= trials,
        final(source).state == spooky_state_after(old(source).state, trials as nat),
{
    let ghost s0 = source.state;
    let mut num_different: usize = 0;
    let mut i: usize = 0;
    while i < trials
        invariant
            i <= trials,
            num_different <= i,
            num_different + spooky_diff_count(source.state, (trials - i) as nat)
                == spooky_diff_count(s0, trials as nat),
            spooky_state_after(source.state, (trials - i) as nat) == spooky_state_after(
                s0,
                trials as nat,
            ),
        decreases trials - i,
    {
        let particles = Particle::new_pair();
        let mut lhs = particles.lhs;
        let mut rhs = particles.rhs;

        lhs.spooky(&mut rhs, source);

        if lhs.spin != rhs.spin {
            num_different += 1;
        }
        i += 1;
    }
    num_different
}

/// Run `trials` hidden-variable trials, each independently picking the
/// `OddBall` plan with probability `oddball_weight / UNIT_SCALE` and
/// `Trivial` otherwise, and return how many ended with unequal spins.
pub fn get_hidden(trials: usize, oddball_weight: u64, source: &mut RandomSource) -> (num_different:
    usize)
    requires
        oddball_weight <= UNIT_SCALE,
    ensures
        num_different == hidden_diff_count(old(source).state, oddball_weight, trials as nat),
        num_different <= trials,
        final(source).state == hidden_state_after(old(source).state, trials as nat),
{
    let ghost s0 = source.state;
    let mut num_different: usize = 0;
    let mut i: usize = 0;
    while i < trials
        invariant
            i <= trials,
            num_different <= i,
            num_different + hidden_diff_count(source.state, oddball_weight, (trials - i) as nat)
                == hidden_diff_count(s0, oddball_weight, trials as nat),
            hidden_state_after(source.state, (trials - i) as nat) == hidden_state_after(
                s0,
                trials as nat,
            ),
        decreases trials - i,
    {
        let particles = Particle::new_pair();
        let mut lhs = particles.lhs;
        let mut rhs = particles.rhs;

        let choice = source.next_unit();
        if choice < oddball_weight {
            lhs.hidden_information(&mut rhs, Plan::OddBall, source);
        } else {
            lhs.hidden_information(&mut rhs, Plan::Trivial, source);
        }

        if lhs.spin != rhs.spin {
            num_different += 1;
        }
        i += 1;
    }
    num_different
}

/// The outcome of an experiment run: either no data (zero trials were
/// requested, so no fraction exists), or the observed counts together with
/// the fraction of differing trials in ten-thousandths (a percentage with
/// two decimal places).
#[derive(Clone, Copy, Debug, PartialEq, Eq, Structural)]
pub enum ExperimentReport {
    NoData,
    Data { trials: usize, num_different: usize, per_ten_thousand: u64 },
}

/// The fraction `num_different / trials` scaled to ten-thousandths,
/// rounded down.
pub open spec fn per_ten_thousand_of(num_different: nat, trials: nat) -> int {
    (10000 * (num_different as int)) / (trials as int)
}

/// Scale an observed count to ten-thousandths of the trial total.
fn per_ten_thousand(num_different: usize, trials: usize) -> (r: u64)
    requires
        0 < trials,
        num_different <= trials,
    ensures
        r == per_ten_thousand_of(num_different as nat, trials as nat),
        r <= 10000,
{
    proof {
        assert((10000 * (num_different as int)) / (trials as int) <= 10000) by (nonlinear_arith)
            requires
                0 < trials,
                num_different <= trials,
        ;
        assert(10000 * (num_different as int) <= 10000 * (usize::MAX as int)) by (nonlinear_arith)
            requires
                num_different <= usize::MAX,
        ;
    }
    ((10000u128 * (num_different as u128)) / (trials as u128)) as u64
}

/// Run the whole spooky experiment: `trials` trials, then the observed
/// difference count and its fraction in ten-thousandths, or an explicit
/// no-data report when zero trials were requested.
pub fn run_spooky(trials: usize, source: &mut RandomSource) -> (report: ExperimentReport)
    ensures
        trials == 0 ==> report == ExperimentReport::NoData && *final(source) == *old(source),
        trials > 0 ==> report == (ExperimentReport::Data {
            trials,
            num_different: spooky_diff_count(old(source).state, trials as nat) as usize,
            per_ten_thousand: per_ten_thousand_of(
                spooky_diff_count(old(source).state, trials as nat),
                trials as nat,
            ) as u64,
        }),
        trials > 0 ==> final(source).state == spooky_state_after(old(source).state, trials as nat),
{
    if trials == 0 {
        return ExperimentReport::NoData;
    }
    let num_different = get_spooky(trials, source);
    let scaled = per_ten_thousand(num_different, trials);
    ExperimentReport::Data { trials, num_different, per_ten_thousand: scaled }
}

/// Run the whole mixed hidden-variable experiment: `trials` trials with the
/// given `OddBall` mixing weight, then the observed difference count and its
/// fraction in ten-thousandths, or an explicit no-data report when zero
/// trials were requested.
pub fn run_hidden(trials: usize, oddball_weight: u64, source: &mut RandomSource) -> (report:
    ExperimentReport)
    requires
        oddball_weight <= UNIT_SCALE,
    ensures
        trials == 0 ==> report == ExperimentReport::NoData && *final(source) == *old(source),
        trials > 0 ==> report == (ExperimentReport::Data {
            trials,
            num_different: hidden_diff_count(
                old(source).state,
                oddball_weight,
                trials as nat,
            ) as usize,
            per_ten_thousand: per_ten_thousand_of(
                hidden_diff_count(old(source).state, oddball_weight, trials as nat),
                trials as nat,
            ) as u64,
        }),
        trials > 0 ==> final(source).state == hidden_state_after(old(source).state, trials as nat),
{
    if trials == 0 {
        return ExperimentReport::NoData;
    }
    let num_different = get_hidden(trials, oddball_weight, source);
    let scaled = per_ten_thousand(num_different, trials);
    ExperimentReport::Data { trials, num_different, per_ten_thousand: scaled }
}

/// The theoretical fraction of differing trials for the spooky protocol, in
/// ten-thousandths: one half.
pub const EXPECTED_SPOOKY_PER_TEN_THOUSAND: u64 = 5000;

/// The theoretical fraction of differing trials for the mixed
/// hidden-variable experiment, in ten-thousandths, rounded down.
///
/// A `Trivial` trial always differs; an `OddBall` trial differs with
/// probability 5/9. With `OddBall` chosen with probability
/// `p = oddball_weight / UNIT_SCALE`, the expectation is
/// `p * 5/9 + (1 - p) * 1 = (9 * UNIT_SCALE - 4 * oddball_weight) / (9 * UNIT_SCALE)`.
pub fn expected_hidden_per_ten_thousand(oddball_weight: u64) -> (e: u64)
    requires
        oddball_weight <= UNIT_SCALE,
    ensures
        e == (10000 * (9 * UNIT_SCALE - 4 * oddball_weight)) / (9 * UNIT_SCALE),
        5555 <= e <= 10000,
{
    let numerator = 10000 * (9 * UNIT_SCALE - 4 * oddball_weight);
    let e = numerator / (9 * UNIT_SCALE);
    proof {
        assert(e <= 10000 && 5555 <= e) by (nonlinear_arith)
            requires
                oddball_weight <= UNIT_SCALE,
                UNIT_SCALE == 12884901888u64,
                e == (10000 * (9 * UNIT_SCALE - 4 * oddball_weight)) / (9 * UNIT_SCALE),
        ;
    }
    e
}

} // verus!
