//! The fault-stage simulator: determinism, trajectory shape, latched
//! transition angles, and the sentinel for unreached thresholds.

use equal_area::{default_params, sim_pet_time, Fx, SCALE};

fn fx(x: f64) -> Fx {
    Fx { v: (x * SCALE as f64).round() as i64 }
}

fn to_f64(x: Fx) -> f64 {
    x.v as f64 / SCALE as f64
}

#[test]
fn simulator_is_deterministic() {
    let p = default_params();
    let pm = 1.44f64;
    let pe1 = 1.83333f64;
    let dn0 = fx((pm / pe1).asin());
    let r1 = sim_pet_time(&p, fx(0.15), fx(0.3), Fx { v: 0 }, dn0);
    let r2 = sim_pet_time(&p, fx(0.15), fx(0.3), Fx { v: 0 }, dn0);
    assert_eq!(r1.tempos, r2.tempos);
    assert_eq!(r1.angulos, r2.angulos);
    assert_eq!(r1.velocidades, r2.velocidades);
    assert_eq!(r1.delta_cra, r2.delta_cra);
    assert_eq!(r1.delta_crr, r2.delta_crr);
}

#[test]
fn sample_scenario_trajectory_and_latched_angles() {
    let p = default_params();
    let pm = 1.44f64;
    let pe1 = 1.83333f64;
    let dn0 = fx((pm / pe1).asin());
    let r = sim_pet_time(&p, fx(0.15), fx(0.3), Fx { v: 0 }, dn0);

    // horizon / step + 1 samples: 5.0 / 5e-4 + 1
    assert_eq!(r.tempos.len(), 10001);
    assert_eq!(r.angulos.len(), 10001);
    assert_eq!(r.velocidades.len(), 10001);

    // the clock is exact: sample 300 sits at t = 0.15 s, sample 600 at 0.3 s
    assert_eq!(r.tempos[300].v, 150_000_000);
    assert_eq!(r.tempos[600].v, 300_000_000);

    // the clearing angle latches at the first step with t >= tab, i.e. the
    // angle of sample 300; the reclosing angle at sample 600
    assert_eq!(r.delta_cra, r.angulos[300]);
    assert_eq!(r.delta_crr, r.angulos[600]);

    // both latched angles lie strictly between the two pre-fault
    // equilibrium angles
    let eq_lo = (pm / pe1).asin();
    let eq_hi = std::f64::consts::PI - eq_lo;
    let cra = to_f64(r.delta_cra);
    let crr = to_f64(r.delta_crr);
    assert!(eq_lo < cra && cra < eq_hi, "cra = {}", cra);
    assert!(eq_lo < crr && crr < eq_hi, "crr = {}", crr);
    assert!(cra < crr, "clearing angle should precede reclosing angle");
}

#[test]
fn unreached_thresholds_leave_the_sentinel() {
    let p = default_params();
    let dn0 = fx(0.9);
    let r = sim_pet_time(&p, fx(10.0), fx(20.0), Fx { v: 0 }, dn0);
    assert_eq!(r.delta_cra.v, 0);
    assert_eq!(r.delta_crr.v, 0);
}

#[test]
fn reclosing_after_horizon_leaves_only_that_sentinel() {
    let p = default_params();
    let dn0 = fx(0.9);
    let r = sim_pet_time(&p, fx(0.15), fx(20.0), Fx { v: 0 }, dn0);
    assert!(r.delta_cra.v != 0);
    assert_eq!(r.delta_crr.v, 0);
}

#[test]
fn equal_thresholds_latch_on_consecutive_steps() {
    // at most one transition fires per step: with tab == tr the clearing
    // transition fires first, the reclosing transition one step later
    let p = default_params();
    let dn0 = fx(0.903588);
    let r = sim_pet_time(&p, fx(0.15), fx(0.15), Fx { v: 0 }, dn0);
    assert_eq!(r.delta_cra, r.angulos[300]);
    assert_eq!(r.delta_crr, r.angulos[301]);
}

#[test]
fn reclosing_threshold_before_clearing_waits_for_the_regime() {
    // the reclosing check is gated on the post-fault regime, so an earlier
    // tr only fires on the step after the clearing transition
    let p = default_params();
    let dn0 = fx(0.903588);
    let r = sim_pet_time(&p, fx(0.3), fx(0.15), Fx { v: 0 }, dn0);
    assert_eq!(r.delta_cra, r.angulos[600]);
    assert_eq!(r.delta_crr, r.angulos[601]);
}

#[test]
fn zero_clearing_threshold_fires_on_the_first_step_after_the_fault() {
    // at t = 0 the instantaneous-fault transition takes the slot, so a zero
    // tab latches at the next step
    let p = default_params();
    let dn0 = fx(0.903588);
    let r = sim_pet_time(&p, Fx { v: 0 }, fx(0.3), Fx { v: 0 }, dn0);
    assert_eq!(r.delta_cra, r.angulos[1]);
}

#[test]
fn initial_sample_is_the_initial_state() {
    let p = default_params();
    let dn0 = fx(0.903);
    let w0 = fx(0.01);
    let r = sim_pet_time(&p, fx(0.15), fx(0.3), w0, dn0);
    assert_eq!(r.tempos[0].v, 0);
    assert_eq!(r.angulos[0], dn0);
    assert_eq!(r.velocidades[0], w0);
}
