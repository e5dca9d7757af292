//! Exact, measure-level statements of the simulation's statistical claims.
//!
//! Each probabilistic step consumes one uniform draw over the grid
//! `[0, UNIT_SCALE)`, so a claim of the form "this outcome happens with
//! probability q" becomes an exact counting statement: the set of draws that
//! produce the outcome has exactly `q * UNIT_SCALE` elements. The proof
//! functions here pin those counts down for orientation selection, spin
//! collapse, and the per-trial difference rates of both protocols.

use vstd::prelude::*;

use vstd::set_lib::{lemma_int_range, lemma_set_disjoint_lens, set_int_range};

use crate::particle::{
    collapse_of, hidden_lhs_of, hidden_rhs_of, orientation_of, Detector, Direction, Plan,
    DOWN_SPLIT, ORIENTATION_SPLIT_HI, ORIENTATION_SPLIT_LO,
};
use crate::random_source::{draw_of, next_state, UNIT_SCALE};
use crate::experiment::{hidden_trial_differs, plan_choice, spooky_trial_differs};

verus! {

/// The draws in `[0, UNIT_SCALE)` that select orientation `d`.
pub open spec fn orientation_draws(d: Detector) -> Set<int> {
    Set::new(|r: int| 0 <= r < UNIT_SCALE && orientation_of(r) == d)
}

/// The draws in `[0, UNIT_SCALE)` that collapse a 3 or 9 o'clock
/// measurement to spin `dir`.
pub open spec fn collapse_draws(dir: Direction) -> Set<int> {
    Set::new(|r: int| 0 <= r < UNIT_SCALE && collapse_of(r) == dir)
}

/// Orientation selection is an exact three-way partition: each orientation
/// is selected by exactly one third of the possible draws, the three
/// sub-ranges are disjoint, and together they cover the whole unit grid
/// with no gap.
pub proof fn lemma_orientation_equal_thirds()
    ensures
        orientation_draws(Detector::D12) == set_int_range(0, ORIENTATION_SPLIT_LO as int),
        orientation_draws(Detector::D3) == set_int_range(
            ORIENTATION_SPLIT_LO as int,
            ORIENTATION_SPLIT_HI as int,
        ),
        orientation_draws(Detector::D9) == set_int_range(
            ORIENTATION_SPLIT_HI as int,
            UNIT_SCALE as int,
        ),
        orientation_draws(Detector::D12).len() == UNIT_SCALE / 3,
        orientation_draws(Detector::D3).len() == UNIT_SCALE / 3,
        orientation_draws(Detector::D9).len() == UNIT_SCALE / 3,
        3 * (UNIT_SCALE / 3) == UNIT_SCALE,
        forall|r: int|
            0 <= r < UNIT_SCALE ==> (#[trigger] orientation_of(r) == Detector::D12
                || orientation_of(r) == Detector::D3 || orientation_of(r) == Detector::D9),
{
    assert(orientation_draws(Detector::D12) =~= set_int_range(0, ORIENTATION_SPLIT_LO as int));
    assert(orientation_draws(Detector::D3) =~= set_int_range(
        ORIENTATION_SPLIT_LO as int,
        ORIENTATION_SPLIT_HI as int,
    ));
    assert(orientation_draws(Detector::D9) =~= set_int_range(
        ORIENTATION_SPLIT_HI as int,
        UNIT_SCALE as int,
    ));
    lemma_int_range(0, ORIENTATION_SPLIT_LO as int);
    lemma_int_range(ORIENTATION_SPLIT_LO as int, ORIENTATION_SPLIT_HI as int);
    lemma_int_range(ORIENTATION_SPLIT_HI as int, UNIT_SCALE as int);
}

/// Spin collapse along 3 or 9 o'clock is an exact quarter split: exactly
/// one quarter of the possible draws yield down, the other three quarters
/// yield up, and no draw yields an undetermined spin.
pub proof fn lemma_collapse_quarter_split()
    ensures
        collapse_draws(Direction::SpinDown) == set_int_range(0, DOWN_SPLIT as int),
        collapse_draws(Direction::SpinUp) == set_int_range(DOWN_SPLIT as int, UNIT_SCALE as int),
        collapse_draws(Direction::SpinDown).len() == UNIT_SCALE / 4,
        collapse_draws(Direction::SpinUp).len() == UNIT_SCALE - UNIT_SCALE / 4,
        4 * (UNIT_SCALE / 4) == UNIT_SCALE,
        collapse_draws(Direction::SpinSuper) == Set::<int>::empty(),
{
    assert(collapse_draws(Direction::SpinDown) =~= set_int_range(0, DOWN_SPLIT as int));
    assert(collapse_draws(Direction::SpinUp) =~= set_int_range(
        DOWN_SPLIT as int,
        UNIT_SCALE as int,
    ));
    assert(collapse_draws(Direction::SpinSuper) =~= Set::<int>::empty());
    lemma_int_range(0, DOWN_SPLIT as int);
    lemma_int_range(DOWN_SPLIT as int, UNIT_SCALE as int);
}

/// Whether a spooky trial whose orientation draw is `r1` and whose (only
/// potentially consumed) collapse draw is `r2` ends with unequal spins:
/// matching orientations force a difference; otherwise the right particle's
/// independent collapse decides.
pub open spec fn spooky_pair_differs(r1: int, r2: int) -> bool {
    if orientation_of(r1) == Detector::D12 {
        true
    } else {
        collapse_of(r2) == Direction::SpinDown
    }
}

/// For a fixed orientation draw `r1`, the collapse draws in
/// `[0, UNIT_SCALE)` under which the spooky trial ends with unequal spins.
pub open spec fn spooky_differ_fiber(r1: int) -> Set<int> {
    Set::new(|r2: int| 0 <= r2 < UNIT_SCALE && spooky_pair_differs(r1, r2))
}

/// The spooky protocol's difference rate is exactly one half, stated as a
/// count over the grid of draw pairs: when the orientation draw matches the
/// reference orientation (one third of draws) every collapse draw differs;
/// otherwise (two thirds of draws) exactly a quarter of collapse draws
/// differ; and those counts add up to exactly half of all pairs.
pub proof fn lemma_spooky_difference_rate()
    ensures
        forall|r1: int|
            orientation_of(r1) == Detector::D12 ==> #[trigger] spooky_differ_fiber(r1).len()
                == UNIT_SCALE as int,
        forall|r1: int|
            orientation_of(r1) != Detector::D12 ==> #[trigger] spooky_differ_fiber(r1).len()
                == UNIT_SCALE / 4,
        (UNIT_SCALE / 3) * (UNIT_SCALE as int) + (UNIT_SCALE - UNIT_SCALE / 3) * (UNIT_SCALE / 4)
            == (UNIT_SCALE * UNIT_SCALE) / 2,
        forall|s: u64|
            #[trigger] spooky_trial_differs(s) == spooky_pair_differs(
                draw_of(s) as int,
                draw_of(next_state(s)) as int,
            ),
{
    assert forall|r1: int| orientation_of(r1) == Detector::D12 implies #[trigger] spooky_differ_fiber(
        r1,
    ).len() == UNIT_SCALE as int by {
        assert(spooky_differ_fiber(r1) =~= set_int_range(0, UNIT_SCALE as int));
        lemma_int_range(0, UNIT_SCALE as int);
    }
    assert forall|r1: int| orientation_of(r1) != Detector::D12 implies #[trigger] spooky_differ_fiber(
        r1,
    ).len() == UNIT_SCALE / 4 by {
        assert(spooky_differ_fiber(r1) =~= set_int_range(0, DOWN_SPLIT as int));
        lemma_int_range(0, DOWN_SPLIT as int);
    }
}

/// Whether a hidden-variable trial under the `OddBall` plan, with
/// orientation draw `r1` for the right particle and `r2` for the left, ends
/// with unequal spins: exactly when the two draws agree on whether they
/// select the 3 o'clock orientation.
pub open spec fn hidden_oddball_pair_differs(r1: int, r2: int) -> bool {
    hidden_lhs_of(Plan::OddBall, orientation_of(r2)) != hidden_rhs_of(
        Plan::OddBall,
        orientation_of(r1),
    )
}

/// For a fixed right-particle orientation draw `r1`, the left-particle
/// orientation draws in `[0, UNIT_SCALE)` under which an `OddBall` trial
/// ends with unequal spins.
pub open spec fn hidden_oddball_differ_fiber(r1: int) -> Set<int> {
    Set::new(|r2: int| 0 <= r2 < UNIT_SCALE && hidden_oddball_pair_differs(r1, r2))
}

/// The hidden-variable protocol's difference rates, as exact counts.
///
/// Under the `Trivial` plan every trial ends with unequal spins, whatever
/// the orientations. Under the `OddBall` plan, for a right-particle draw
/// selecting 3 o'clock (one third of draws) exactly one third of
/// left-particle draws differ, otherwise exactly two thirds do — and those
/// counts add up to exactly 5/9 of all draw pairs, the fraction that makes
/// the classical strategy measurably exceed the spooky protocol's one half.
pub proof fn lemma_hidden_difference_rate()
    ensures
        forall|o1: Detector, o2: Detector|
            #[trigger] hidden_lhs_of(Plan::Trivial, o1) != #[trigger] hidden_rhs_of(
                Plan::Trivial,
                o2,
            ),
        forall|r1: int, r2: int|
            #[trigger] hidden_oddball_pair_differs(r1, r2) == ((orientation_of(r1) == Detector::D3)
                <==> (orientation_of(r2) == Detector::D3)),
        forall|r1: int|
            orientation_of(r1) == Detector::D3 ==> #[trigger] hidden_oddball_differ_fiber(r1).len()
                == UNIT_SCALE / 3,
        forall|r1: int|
            orientation_of(r1) != Detector::D3 ==> #[trigger] hidden_oddball_differ_fiber(r1).len()
                == UNIT_SCALE - UNIT_SCALE / 3,
        (UNIT_SCALE / 3) * (UNIT_SCALE / 3) + (UNIT_SCALE - UNIT_SCALE / 3) * (UNIT_SCALE
            - UNIT_SCALE / 3) == 5 * ((UNIT_SCALE * UNIT_SCALE) / 9),
{
    assert forall|r1: int| orientation_of(r1) == Detector::D3 implies #[trigger] hidden_oddball_differ_fiber(
        r1,
    ).len() == UNIT_SCALE / 3 by {
        assert(hidden_oddball_differ_fiber(r1) =~= set_int_range(
            ORIENTATION_SPLIT_LO as int,
            ORIENTATION_SPLIT_HI as int,
        ));
        lemma_int_range(ORIENTATION_SPLIT_LO as int, ORIENTATION_SPLIT_HI as int);
    }
    assert forall|r1: int| orientation_of(r1) != Detector::D3 implies #[trigger] hidden_oddball_differ_fiber(
        r1,
    ).len() == UNIT_SCALE - UNIT_SCALE / 3 by {
        let low = set_int_range(0, ORIENTATION_SPLIT_LO as int);
        let high = set_int_range(ORIENTATION_SPLIT_HI as int, UNIT_SCALE as int);
        lemma_int_range(0, ORIENTATION_SPLIT_LO as int);
        lemma_int_range(ORIENTATION_SPLIT_HI as int, UNIT_SCALE as int);
        lemma_set_disjoint_lens(low, high);
        assert(hidden_oddball_differ_fiber(r1) =~= low + high);
    }
}

/// A mixed hidden-variable trial with mixing weight zero always uses the
/// `Trivial` plan, so it always ends with unequal spins; in particular the
/// whole-run difference count equals the trial count.
pub proof fn lemma_hidden_all_trivial_always_differs(s: u64)
    ensures
        plan_choice(draw_of(s) as int, 0) == Plan::Trivial,
        hidden_trial_differs(s, 0),
{
}

} // verus!
