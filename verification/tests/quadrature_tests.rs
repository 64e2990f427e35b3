//! Simpson quadrature against closed forms, and the equilibrium angles.

use equal_area::{encontrar_intersecoes, integrar_simpson, Fx, SCALE};

fn fx(x: f64) -> Fx {
    Fx { v: (x * SCALE as f64).round() as i64 }
}

fn to_f64(x: Fx) -> f64 {
    x.v as f64 / SCALE as f64
}

/// Analytic value of the integral of `pe * sin(x)` from `a` to `b`.
fn sine_integral(pe: f64, a: f64, b: f64) -> f64 {
    pe * (a.cos() - b.cos())
}

#[test]
fn simpson_matches_the_sine_closed_form_unit_amplitude() {
    let (pe, a, b) = (1.0, 0.5, 2.0);
    let got = to_f64(integrar_simpson(fx(a), fx(b), 1_000_000, fx(pe), Fx { v: 0 }, true));
    assert!((got - sine_integral(pe, a, b)).abs() < 1e-6, "got {}", got);
}

#[test]
fn simpson_matches_the_sine_closed_form_prefault_amplitude() {
    let (pe, a, b) = (1.83333, 0.903588, 2.238004);
    let got = to_f64(integrar_simpson(fx(a), fx(b), 1_000_000, fx(pe), Fx { v: 0 }, true));
    assert!((got - sine_integral(pe, a, b)).abs() < 1e-6, "got {}", got);
}

#[test]
fn simpson_matches_the_sine_closed_form_fault_amplitude() {
    let (pe, a, b) = (1.13491, 0.2, 3.0);
    let got = to_f64(integrar_simpson(fx(a), fx(b), 1_000_000, fx(pe), Fx { v: 0 }, true));
    assert!((got - sine_integral(pe, a, b)).abs() < 1e-6, "got {}", got);
}

#[test]
fn simpson_matches_the_power_difference_closed_form() {
    // integral of pm - pe*sin(x) from a to b is pm*(b - a) - pe*(cos a - cos b)
    let (pe, pm, a, b) = (1.13491, 1.44, 0.903588, 1.7);
    let got = to_f64(integrar_simpson(fx(a), fx(b), 1_000_000, fx(pe), fx(pm), false));
    let want = pm * (b - a) - sine_integral(pe, a, b);
    assert!((got - want).abs() < 1e-6, "got {} want {}", got, want);
}

#[test]
fn simpson_handles_reversed_bounds_with_the_sign_of_the_width() {
    let (pe, a, b) = (1.0, 2.0, 0.5);
    let got = to_f64(integrar_simpson(fx(a), fx(b), 1_000_000, fx(pe), Fx { v: 0 }, true));
    assert!((got - sine_integral(pe, a, b)).abs() < 1e-6, "got {}", got);
    assert!(got < 0.0);
}

#[test]
fn simpson_of_a_zero_width_interval_is_zero() {
    let a = fx(1.234);
    let got = integrar_simpson(a, a, 1_000_000, fx(1.5), fx(0.3), false);
    assert_eq!(got.v, 0);
}

#[test]
fn simpson_with_few_points_is_still_close_on_smooth_integrands() {
    let (pe, a, b) = (1.0, 0.0, 1.0);
    let got = to_f64(integrar_simpson(fx(a), fx(b), 100, fx(pe), Fx { v: 0 }, true));
    assert!((got - sine_integral(pe, a, b)).abs() < 1e-5, "got {}", got);
}

#[test]
fn equilibrium_angles_match_the_arcsine() {
    let (pe, pm) = (1.83333, 1.44);
    let r = encontrar_intersecoes(fx(pe), fx(pm));
    let (lo, hi) = r.expect("equilibrium angles must exist for pm <= pe");
    let want_lo = (pm / pe).asin();
    let want_hi = std::f64::consts::PI - want_lo;
    assert!((to_f64(lo) - want_lo).abs() < 1e-6);
    assert!((to_f64(hi) - want_hi).abs() < 1e-6);
}

#[test]
fn equilibrium_angles_are_undefined_when_pm_exceeds_the_maximum() {
    assert!(encontrar_intersecoes(fx(1.44), fx(1.83333)).is_none());
    assert!(encontrar_intersecoes(fx(1.0), fx(1.0000001)).is_none());
}

#[test]
fn equilibrium_angles_are_undefined_for_non_physical_inputs() {
    assert!(encontrar_intersecoes(Fx { v: 0 }, fx(0.5)).is_none());
    assert!(encontrar_intersecoes(fx(-1.0), fx(0.5)).is_none());
    assert!(encontrar_intersecoes(fx(1.5), fx(-0.1)).is_none());
}

#[test]
fn equilibrium_angles_exist_at_the_boundary() {
    let r = encontrar_intersecoes(fx(1.5), fx(1.5));
    let (lo, _hi) = r.expect("pm equal to the maximum is still in the domain");
    // the arcsine is ill-conditioned at the edge of its domain
    assert!((to_f64(lo) - std::f64::consts::FRAC_PI_2).abs() < 1e-4);
}
