use bells_qe::particle::{
    collapse_from, orientation_from, Detector, Direction, Pair, Particle, Plan,
};
use bells_qe::random_source::{RandomSource, UNIT_SCALE};

const ORIENTATION_SPLIT_LO: u64 = UNIT_SCALE / 3;
const ORIENTATION_SPLIT_HI: u64 = 2 * (UNIT_SCALE / 3);
const DOWN_SPLIT: u64 = UNIT_SCALE / 4;

#[test]
fn source_draws_stay_on_grid() {
    let mut source = RandomSource::new(42);
    for _ in 0..10_000 {
        let r = source.next_unit();
        assert!(r < UNIT_SCALE);
    }
}

#[test]
fn source_is_deterministic_per_seed() {
    let mut a = RandomSource::new(987654321);
    let mut b = RandomSource::new(987654321);
    for _ in 0..1_000 {
        assert_eq!(a.next_unit(), b.next_unit());
    }
    let mut c = RandomSource::new(1);
    let mut d = RandomSource::new(2);
    let mut all_equal = true;
    for _ in 0..100 {
        if c.next_unit() != d.next_unit() {
            all_equal = false;
        }
    }
    assert!(!all_equal);
}

#[test]
fn source_zero_seed_is_replaced() {
    let mut source = RandomSource::new(0);
    assert_ne!(source.state, 0);
    let first = source.next_unit();
    let second = source.next_unit();
    assert!(first != second || source.state != 0);
}

#[test]
fn orientation_boundaries_are_exact_thirds() {
    assert_eq!(orientation_from(0), Detector::D12);
    assert_eq!(orientation_from(ORIENTATION_SPLIT_LO - 1), Detector::D12);
    assert_eq!(orientation_from(ORIENTATION_SPLIT_LO), Detector::D3);
    assert_eq!(orientation_from(ORIENTATION_SPLIT_HI - 1), Detector::D3);
    assert_eq!(orientation_from(ORIENTATION_SPLIT_HI), Detector::D9);
    assert_eq!(orientation_from(UNIT_SCALE - 1), Detector::D9);
}

#[test]
fn collapse_boundaries_are_exact_quarter() {
    assert_eq!(collapse_from(0), Direction::SpinDown);
    assert_eq!(collapse_from(DOWN_SPLIT - 1), Direction::SpinDown);
    assert_eq!(collapse_from(DOWN_SPLIT), Direction::SpinUp);
    assert_eq!(collapse_from(UNIT_SCALE - 1), Direction::SpinUp);
}

#[test]
fn labels_match_names() {
    assert_eq!(Direction::SpinUp.label(), "SpinUp");
    assert_eq!(Direction::SpinDown.label(), "SpinDown");
    assert_eq!(Direction::SpinSuper.label(), "SpinSuper");
    assert_eq!(Detector::D12.label(), "12 oclock");
    assert_eq!(Detector::D3.label(), "3 oclock");
    assert_eq!(Detector::D9.label(), "9 oclock");
}

#[test]
fn new_pair_starts_undetermined() {
    let pair: Pair<Particle> = Particle::new_pair();
    assert_eq!(pair.lhs.spin, Direction::SpinSuper);
    assert_eq!(pair.rhs.spin, Direction::SpinSuper);
}

#[test]
fn measure_twelve_always_up() {
    for seed in 1..2_000u64 {
        let mut source = RandomSource::new(seed);
        let before = source;
        let mut particle = Particle { spin: Direction::SpinSuper };
        particle.measure(&Detector::D12, &mut source);
        assert_eq!(particle.spin, Direction::SpinUp);
        assert_eq!(source, before);
    }
}

#[test]
fn measure_collapses_to_up_or_down() {
    let mut source = RandomSource::new(7);
    for i in 0..3_000u64 {
        let mut particle = Particle { spin: Direction::SpinSuper };
        let detector = if i % 2 == 0 { Detector::D3 } else { Detector::D9 };
        let spin = particle.measure(&detector, &mut source);
        assert_eq!(spin, particle.spin);
        assert_ne!(particle.spin, Direction::SpinSuper);
    }
}

#[test]
fn measure_three_down_fraction_near_quarter() {
    let trials = 200_000u64;
    let mut source = RandomSource::new(20240901);
    let mut downs = 0u64;
    for _ in 0..trials {
        let mut particle = Particle { spin: Direction::SpinSuper };
        particle.measure(&Detector::D3, &mut source);
        if particle.spin == Direction::SpinDown {
            downs += 1;
        }
    }
    let fraction = downs as f64 / trials as f64;
    assert!((fraction - 0.25).abs() < 0.01, "down fraction {fraction}");
}

#[test]
fn orientation_selection_covers_each_third() {
    let trials = 300_000u64;
    let mut source = RandomSource::new(99);
    let mut counts = [0u64; 3];
    for _ in 0..trials {
        match Particle::get_detector_direction(&mut source) {
            Detector::D12 => counts[0] += 1,
            Detector::D3 => counts[1] += 1,
            Detector::D9 => counts[2] += 1,
        }
    }
    for count in counts {
        let fraction = count as f64 / trials as f64;
        assert!(
            (fraction - 1.0 / 3.0).abs() < 0.01,
            "orientation fraction {fraction}"
        );
    }
}

#[test]
fn spooky_left_is_always_up_and_both_collapse() {
    for seed in 1..2_000u64 {
        let mut source = RandomSource::new(seed);
        let pair = Particle::new_pair();
        let mut lhs = pair.lhs;
        let mut rhs = pair.rhs;
        let spins = lhs.spooky(&mut rhs, &mut source);
        assert_eq!(spins.lhs, Direction::SpinUp);
        assert_eq!(spins.lhs, lhs.spin);
        assert_eq!(spins.rhs, rhs.spin);
        assert_ne!(spins.rhs, Direction::SpinSuper);
    }
}

#[test]
fn spooky_matching_orientations_anti_correlate() {
    let mut matched = 0u64;
    for seed in 1..6_000u64 {
        let mut source = RandomSource::new(seed);
        let mut probe = source;
        let orientation = Particle::get_detector_direction(&mut probe);

        let pair = Particle::new_pair();
        let mut lhs = pair.lhs;
        let mut rhs = pair.rhs;
        let spins = lhs.spooky(&mut rhs, &mut source);
        if orientation == Detector::D12 {
            matched += 1;
            assert_ne!(spins.lhs, spins.rhs);
            assert_eq!(spins.rhs, Direction::SpinDown);
        }
    }
    assert!(matched > 1_000, "matched only {matched} times");
}

#[test]
fn hidden_trivial_is_always_opposite() {
    for seed in 1..2_000u64 {
        let mut source = RandomSource::new(seed);
        let pair = Particle::new_pair();
        let mut lhs = pair.lhs;
        let mut rhs = pair.rhs;
        let spins = lhs.hidden_information(&mut rhs, Plan::Trivial, &mut source);
        assert_eq!(spins.lhs, Direction::SpinDown);
        assert_eq!(spins.rhs, Direction::SpinUp);
    }
}

#[test]
fn hidden_oddball_follows_orientation_rule() {
    for seed in 1..4_000u64 {
        let mut source = RandomSource::new(seed);
        let mut probe = source;
        let rhs_orientation = Particle::get_detector_direction(&mut probe);
        let lhs_orientation = Particle::get_detector_direction(&mut probe);

        let pair = Particle::new_pair();
        let mut lhs = pair.lhs;
        let mut rhs = pair.rhs;
        let spins = lhs.hidden_information(&mut rhs, Plan::OddBall, &mut source);

        let expected_rhs = if rhs_orientation == Detector::D3 {
            Direction::SpinDown
        } else {
            Direction::SpinUp
        };
        let expected_lhs = if lhs_orientation == Detector::D3 {
            Direction::SpinUp
        } else {
            Direction::SpinDown
        };
        assert_eq!(spins.rhs, expected_rhs);
        assert_eq!(spins.lhs, expected_lhs);
        if rhs_orientation == lhs_orientation {
            assert_ne!(spins.lhs, spins.rhs);
        }
    }
}
