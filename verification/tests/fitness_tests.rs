//! The fitness score: zero at exact balance, strict growth with the
//! imbalance, penalty activation, and the objective's boundary contract.

use equal_area::{
    default_params, fitness_from_areas, objective_function, Fitness, Fx, FX_MAX, PENALIDADE,
    QUARTIC_CAP, SCALE,
};

fn fx(x: f64) -> Fx {
    Fx { v: (x * SCALE as f64).round() as i64 }
}

/// The scored value as a float: quartic units are fixed-point to the
/// fourth, so the real value divides by SCALE^4.
fn value_of(f: &Fitness) -> f64 {
    let raw = f.quartic as f64 / 1e36;
    if f.penalized {
        raw * PENALIDADE as f64
    } else {
        raw
    }
}

#[test]
fn balanced_areas_score_zero() {
    let r = fitness_from_areas(fx(0.5), fx(0.7), fx(1.2));
    assert_eq!(r.quartic, 0);
    assert!(!r.penalized);
    assert_eq!(value_of(&r), 0.0);
}

#[test]
fn excess_accelerating_area_activates_the_penalty() {
    // area1 + area2 - area3 = 0.1 exactly in fixed point
    let r = fitness_from_areas(fx(0.5), fx(0.7), fx(1.1));
    assert!(r.penalized);
    // the quartic is exact: (10^8)^4 = 10^32
    assert_eq!(r.quartic, 100_000_000_000_000_000_000_000_000_000_000i128);
    // the scored value is the raw quartic times 10^10
    let raw = r.quartic as f64 / 1e36;
    assert!((value_of(&r) - raw * 1e10).abs() < 1e-12 * value_of(&r).abs());
}

#[test]
fn excess_decelerating_area_is_not_penalized() {
    let r = fitness_from_areas(fx(0.5), fx(0.7), fx(1.3));
    assert!(!r.penalized);
    assert_eq!(r.quartic, 100_000_000_000_000_000_000_000_000_000_000i128);
}

#[test]
fn penalized_score_exceeds_the_unpenalized_by_ten_orders() {
    let over = fitness_from_areas(fx(0.5), fx(0.7), fx(1.1));
    let under = fitness_from_areas(fx(0.5), fx(0.7), fx(1.3));
    assert_eq!(over.quartic, under.quartic);
    let ratio = value_of(&over) / value_of(&under);
    assert!((ratio - 1e10).abs() < 1.0, "ratio = {}", ratio);
}

#[test]
fn score_grows_strictly_with_the_imbalance() {
    let d1 = fitness_from_areas(fx(0.5), fx(0.7), fx(1.15));
    let d2 = fitness_from_areas(fx(0.5), fx(0.7), fx(1.1));
    let d3 = fitness_from_areas(fx(0.5), fx(0.7), fx(1.0));
    assert!(value_of(&d1) > 0.0);
    assert!(value_of(&d1) < value_of(&d2));
    assert!(value_of(&d2) < value_of(&d3));
}

#[test]
fn huge_imbalance_saturates_at_the_quartic_cap() {
    let r = fitness_from_areas(Fx { v: FX_MAX }, Fx { v: FX_MAX }, Fx { v: 0 });
    assert_eq!(r.quartic, QUARTIC_CAP);
    assert!(r.penalized);
}

#[test]
fn objective_is_finite_and_nonnegative_on_the_sample_candidate() {
    let p = default_params();
    let r = objective_function(&p, fx(0.15), fx(0.3));
    assert!(r.quartic >= 0);
    assert!(r.quartic <= QUARTIC_CAP);
    let v = value_of(&r);
    assert!(v.is_finite());
    assert!(v >= 0.0);
}

#[test]
fn objective_is_finite_and_nonnegative_across_the_bounds() {
    let p = default_params();
    for &(tab, tr) in [(0.15, 0.15), (0.15, 5.0)].iter() {
        let r = objective_function(&p, fx(tab), fx(tr));
        assert!(r.quartic >= 0);
        assert!(r.quartic <= QUARTIC_CAP);
        let v = value_of(&r);
        assert!(v.is_finite());
        assert!(v >= 0.0, "candidate ({}, {})", tab, tr);
    }
}

#[test]
fn objective_signals_an_undefined_equilibrium_with_the_largest_penalty() {
    let mut p = default_params();
    p.pm = fx(2.0); // above the pre-fault maximum 1.83333
    let r = objective_function(&p, fx(0.15), fx(0.3));
    assert_eq!(r.quartic, QUARTIC_CAP);
    assert!(r.penalized);
}

#[test]
fn objective_is_deterministic() {
    let p = default_params();
    let r1 = objective_function(&p, fx(0.15), fx(0.4));
    let r2 = objective_function(&p, fx(0.15), fx(0.4));
    assert_eq!(r1, r2);
}
