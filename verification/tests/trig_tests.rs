//! Accuracy of the fixed-point sine and arcsine against the closed forms.

use equal_area::{asin_fx, sin_fx, Fx, HALF_PI_FX, PI_FX, SCALE};

fn fx(x: f64) -> Fx {
    Fx { v: (x * SCALE as f64).round() as i64 }
}

fn to_f64(x: Fx) -> f64 {
    x.v as f64 / SCALE as f64
}

#[test]
fn sin_of_zero_is_zero() {
    assert_eq!(sin_fx(Fx { v: 0 }).v, 0);
}

#[test]
fn sin_matches_the_closed_form_on_sample_angles() {
    let samples = [
        0.1, 0.5, 1.0, 1.5, 1.5707963, 2.0, 2.5, 3.0, 3.1415926, 4.0, 5.0, 6.0, 6.2831853,
    ];
    for &x in samples.iter() {
        let got = to_f64(sin_fx(fx(x)));
        let want = x.sin();
        assert!(
            (got - want).abs() < 1e-7,
            "sin({}) = {} but expected {}",
            x,
            got,
            want
        );
    }
}

#[test]
fn sin_handles_negative_and_wrapped_angles() {
    let samples = [-0.5, -1.5707963, -3.0, 7.0, 10.0, -10.0, 12.0];
    for &x in samples.iter() {
        let got = to_f64(sin_fx(fx(x)));
        let want = x.sin();
        assert!(
            (got - want).abs() < 1e-6,
            "sin({}) = {} but expected {}",
            x,
            got,
            want
        );
    }
}

#[test]
fn sin_stays_within_the_unit_range_scaled() {
    for k in 0..1000 {
        let x = Fx { v: k * 12_345_678 - 6_000_000_000 };
        let s = sin_fx(x);
        assert!(-HALF_PI_FX <= s.v && s.v <= HALF_PI_FX);
        assert!(s.v.abs() <= SCALE + 10);
    }
}

#[test]
fn asin_matches_the_closed_form() {
    let samples = [0.0, 0.1, 0.25, 0.5, 0.707106781, 0.78545461, 0.9, 0.99];
    for &y in samples.iter() {
        let got = to_f64(asin_fx(fx(y)));
        let want = y.asin();
        assert!(
            (got - want).abs() < 1e-6,
            "asin({}) = {} but expected {}",
            y,
            got,
            want
        );
    }
}

#[test]
fn asin_of_one_is_near_half_pi() {
    // the arcsine is ill-conditioned at the edge of its domain: a sine
    // accurate to a few fixed-point units still moves the root of
    // sin(t) = 1 by about sqrt(2e-9), so only 1e-4 can be asked here
    let got = asin_fx(Fx { v: SCALE });
    assert!((to_f64(got) - std::f64::consts::FRAC_PI_2).abs() < 1e-4);
}

#[test]
fn pi_constants_match_the_f64_values() {
    assert!((PI_FX as f64 / SCALE as f64 - std::f64::consts::PI).abs() < 1e-9);
    assert!((HALF_PI_FX as f64 / SCALE as f64 - std::f64::consts::FRAC_PI_2).abs() < 1e-9);
}
