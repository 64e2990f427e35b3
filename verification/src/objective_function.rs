//! The scalar objective an external search engine minimises.
//!
//! For a candidate `(tab, tr)` the objective runs the fault-stage simulator
//! from the pre-fault equilibrium angle, clamps the reclosing angle to at
//! most pi, evaluates the three equal-area energies, and scores the balance
//! error `(area1 + area2 - area3)` by its fourth power, multiplied by a
//! large penalty factor whenever the accelerating energy exceeds the
//! decelerating energy (`area1 + area2 > area3`), the unstable side of the
//! equal-area criterion. A scenario whose equilibrium angle is undefined
//! (mechanical power above the pre-fault maximum) scores the largest
//! penalised quartic instead of propagating an undefined value.
//!
//! The quartic is computed exactly in integers, capped so that it always
//! fits the result word; the penalty is kept as a flag so that the scored
//! value `quartic * penalty` is exact at spec level. The value is zero
//! exactly when the areas balance, grows strictly with the imbalance, and
//! is never negative; those laws close this module.

use vstd::prelude::*;
use crate::fixed::{Fx, fx_ok, fx_min, spec_min, spec_div, mul_i128, mul_i128_exact};
use crate::params::{Params, params_wf};
use crate::trig::{PI_FX, spec_asin};
use crate::sim_per_time::{sim_pet_time, spec_sim_at, spec_num_steps, lemma_sim_state_bounds};
use crate::area::{
    NUM_PONTOS, spec_equilibrium_defined, spec_simpson, encontrar_intersecoes,
    calcular_areas_melhorado,
};

verus! {

/// The penalty factor applied when the accelerating area exceeds the
/// decelerating area (10^10).
pub const PENALIDADE: i128 = 10_000_000_000;

/// Cap on the squared balance error before it is squared again.
pub const Q2_CAP: i128 = 13_000_000_000_000_000_000;

/// Largest quartic the objective can report: the cap squared.
pub const QUARTIC_CAP: i128 = 169_000_000_000_000_000_000_000_000_000_000_000_000;

/// The capped fourth power of the balance error `d`.
pub open spec fn spec_quartic(d: int) -> int {
    let q2 = if d * d > Q2_CAP {
        Q2_CAP as int
    } else {
        d * d
    };
    q2 * q2
}

/// The scored value of a fitness: the quartic times the penalty factor
/// when the penalty is active.
pub open spec fn spec_fitness_value(quartic: int, penalized: bool) -> int {
    quartic * (if penalized {
        PENALIDADE as int
    } else {
        1
    })
}

/// The scored value of a balance error `d`.
pub open spec fn spec_fitness_of(d: int) -> int {
    spec_fitness_value(spec_quartic(d), d > 0)
}

/// The objective's result: the capped quartic of the area-balance error,
/// and whether the penalty factor applies. The scored value is
/// `quartic * PENALIDADE` when penalised and `quartic` otherwise.
#[derive(Clone, Copy, PartialEq, Eq, Structural, Debug)]
pub struct Fitness {
    /// Capped fourth power of `area1 + area2 - area3`, in fixed-point units
    /// to the fourth.
    pub quartic: i128,
    /// Whether `area1 + area2 > area3` (or the scenario was undefined).
    pub penalized: bool,
}

/// The balance error and penalty the objective reports for a candidate:
/// the full pipeline of equilibrium angles, simulation, clamping and
/// quadrature, or the largest penalised quartic when the equilibrium angle
/// is undefined.
#[verifier::opaque]
pub open spec fn spec_objective(p: Params, tab: Fx, tr: Fx) -> (int, bool) {
    if !spec_equilibrium_defined(p.pe1.v as int, p.pm.v as int) {
        (QUARTIC_CAP as int, true)
    } else {
        let dn_ini = spec_asin(spec_div(p.pm.v as int, p.pe1.v as int));
        let dm = PI_FX - dn_ini;
        let st = spec_sim_at(p, tab, tr, p.delta_w_ini, Fx { v: dn_ini as i64 },
            spec_num_steps(p));
        let cra = st.cra;
        let crr = spec_min(st.crr, PI_FX as int);
        let a1 = spec_simpson(dn_ini, cra, NUM_PONTOS as int, p.pe2.v as int, p.pm.v as int,
            false);
        let a2 = spec_simpson(cra, crr, NUM_PONTOS as int, p.pe3.v as int, p.pm.v as int, false);
        let a3 = spec_simpson(crr, dm, NUM_PONTOS as int, p.pe1.v as int, p.pm.v as int, true);
        let d = a1 + a2 - a3;
        (spec_quartic(d), d > 0)
    }
}

/// Score three areas: the capped quartic of their balance error, penalised
/// when the accelerating side wins.
pub fn fitness_from_areas(area1: Fx, area2: Fx, area3: Fx) -> (r: Fitness)
    requires
        fx_ok(area1.v as int),
        fx_ok(area2.v as int),
        fx_ok(area3.v as int),
    ensures
        r.quartic == spec_quartic(area1.v + area2.v - area3.v),
        r.penalized == (area1.v + area2.v > area3.v),
        0 <= r.quartic <= QUARTIC_CAP,
{
    let d: i128 = (area1.v as i128) + (area2.v as i128) - (area3.v as i128);
    let q2 = mul_i128(d, d);
    proof {
        assert(d * d >= 0) by (nonlinear_arith);
    }
    let q2c: i128 = if q2 > Q2_CAP {
        Q2_CAP
    } else {
        q2
    };
    proof {
        assert(0 <= q2c * q2c <= QUARTIC_CAP) by (nonlinear_arith)
            requires
                0 <= q2c <= Q2_CAP,
                QUARTIC_CAP == Q2_CAP * Q2_CAP,
        ;
    }
    let q4 = mul_i128_exact(q2c, q2c);
    Fitness { quartic: q4, penalized: d > 0 }
}

/// The objective: simulate the candidate `(tab, tr)`, clamp the reclosing
/// angle to pi, evaluate the three areas, and score their balance error.
/// An undefined equilibrium angle scores the largest penalised quartic.
pub fn objective_function(p: &Params, tab: Fx, tr: Fx) -> (r: Fitness)
    requires
        params_wf(*p),
    ensures
        (r.quartic as int, r.penalized) == spec_objective(*p, tab, tr),
        0 <= r.quartic <= QUARTIC_CAP,
        spec_fitness_value(r.quartic as int, r.penalized) >= 0,
{
    proof {
        reveal(spec_objective);
        assert(spec_fitness_value(QUARTIC_CAP as int, true) >= 0) by (nonlinear_arith);
    }
    let r = match encontrar_intersecoes(p.pe1, p.pm) {
        None => Fitness { quartic: QUARTIC_CAP, penalized: true },
        Some((dn_ini, _dm)) => {
            let sim = sim_pet_time(p, tab, tr, p.delta_w_ini, dn_ini);
            let crr = fx_min(sim.delta_crr, Fx { v: PI_FX });
            proof {
                lemma_sim_state_bounds(*p, tab, tr, p.delta_w_ini, dn_ini, spec_num_steps(*p));
            }
            match calcular_areas_melhorado(p.pe1, p.pe2, p.pe3, p.pm, sim.delta_cra, crr) {
                Some((a1, a2, a3)) => fitness_from_areas(a1, a2, a3),
                None => Fitness { quartic: QUARTIC_CAP, penalized: true },
            }
        },
    };
    proof {
        if r.penalized {
            assert(spec_fitness_value(r.quartic as int, true) >= 0) by (nonlinear_arith)
                requires
                    0 <= r.quartic,
            ;
        }
    }
    r
}

/// The objective's scored value is never negative: the boundary contract
/// toward the search engine is a finite, non-negative fitness for every
/// balance error.
pub proof fn lemma_fitness_nonnegative(d: int)
    ensures
        spec_fitness_of(d) >= 0,
{
    assert(d * d >= 0) by (nonlinear_arith);
    let q2 = if d * d > Q2_CAP {
        Q2_CAP as int
    } else {
        d * d
    };
    assert(q2 * q2 >= 0) by (nonlinear_arith)
        requires
            q2 >= 0,
    ;
    assert(spec_quartic(d) * (PENALIDADE as int) >= 0) by (nonlinear_arith)
        requires
            spec_quartic(d) >= 0,
    ;
}

/// Energy-balance idempotence: within the cap, the scored value is zero
/// exactly when the three areas balance (`d = area1 + area2 - area3` is
/// zero).
pub proof fn lemma_fitness_zero_iff_balanced(d: int)
    requires
        -3_605_551_275 <= d <= 3_605_551_275,
    ensures
        (spec_fitness_of(d) == 0) <==> (d == 0),
{
    assert(0 <= d * d <= Q2_CAP) by (nonlinear_arith)
        requires
            -3_605_551_275 <= d <= 3_605_551_275,
            Q2_CAP == 13_000_000_000_000_000_000,
    ;
    if d == 0 {
        assert(spec_quartic(0) == 0);
    } else {
        assert(d * d >= 1) by (nonlinear_arith)
            requires
                d != 0,
        ;
        assert(spec_quartic(d) >= 1) by (nonlinear_arith)
            requires
                1 <= d * d <= Q2_CAP,
        ;
        assert(spec_fitness_of(d) >= 1) by (nonlinear_arith)
            requires
                spec_quartic(d) >= 1,
            ;
    }
}

/// Perturbing the balance away from zero strictly increases the scored
/// value: on either side of the balance point, a larger magnitude of
/// `d = area1 + area2 - area3` scores strictly more, as long as the error
/// stays within the cap.
pub proof fn lemma_fitness_strictly_monotone(d1: int, d2: int)
    requires
        (0 <= d1 < d2 <= 3_605_551_275) || (-3_605_551_275 <= d2 < d1 <= 0),
    ensures
        spec_fitness_of(d1) < spec_fitness_of(d2),
{
    if 0 <= d1 && d1 < d2 {
        assert(0 <= d1 * d1 < d2 * d2 <= Q2_CAP) by (nonlinear_arith)
            requires
                0 <= d1 < d2 <= 3_605_551_275,
                Q2_CAP == 13_000_000_000_000_000_000,
        ;
        assert(spec_quartic(d1) < spec_quartic(d2)) by (nonlinear_arith)
            requires
                0 <= d1 * d1 < d2 * d2 <= Q2_CAP,
                spec_quartic(d1) == (if d1 * d1 > Q2_CAP { Q2_CAP as int } else { d1 * d1 }) * (
                if d1 * d1 > Q2_CAP { Q2_CAP as int } else { d1 * d1 }),
                spec_quartic(d2) == (if d2 * d2 > Q2_CAP { Q2_CAP as int } else { d2 * d2 }) * (
                if d2 * d2 > Q2_CAP { Q2_CAP as int } else { d2 * d2 }),
        ;
        if d1 == 0 {
            assert(spec_fitness_of(0) == 0);
            assert(spec_quartic(d2) * (PENALIDADE as int) >= spec_quartic(d2)) by (
            nonlinear_arith)
                requires
                    spec_quartic(d2) >= 1,
                    PENALIDADE >= 1,
            ;
        } else {
            assert(spec_quartic(d1) * (PENALIDADE as int) < spec_quartic(d2) * (
            PENALIDADE as int)) by (nonlinear_arith)
                requires
                    spec_quartic(d1) < spec_quartic(d2),
                    PENALIDADE >= 1,
            ;
        }
    } else {
        assert(0 <= d1 * d1 < d2 * d2 <= Q2_CAP) by (nonlinear_arith)
            requires
                -3_605_551_275 <= d2 < d1 <= 0,
                Q2_CAP == 13_000_000_000_000_000_000,
        ;
        assert(spec_quartic(d1) < spec_quartic(d2)) by (nonlinear_arith)
            requires
                0 <= d1 * d1 < d2 * d2 <= Q2_CAP,
                spec_quartic(d1) == (if d1 * d1 > Q2_CAP { Q2_CAP as int } else { d1 * d1 }) * (
                if d1 * d1 > Q2_CAP { Q2_CAP as int } else { d1 * d1 }),
                spec_quartic(d2) == (if d2 * d2 > Q2_CAP { Q2_CAP as int } else { d2 * d2 }) * (
                if d2 * d2 > Q2_CAP { Q2_CAP as int } else { d2 * d2 }),
        ;
    }
}

/// Penalty activation: whenever the accelerating area wins (`d > 0`), the
/// scored value is exactly the penalty factor times the raw quartic, so a
/// nonzero penalised error scores at least `PENALIDADE`, ten orders of
/// magnitude above the smallest unpenalised nonzero score.
pub proof fn lemma_penalty_activation(d: int)
    requires
        d > 0,
    ensures
        spec_fitness_of(d) == PENALIDADE * spec_quartic(d),
        spec_fitness_of(d) >= PENALIDADE,
{
    assert(d * d >= 1) by (nonlinear_arith)
        requires
            d > 0,
    ;
    assert(spec_quartic(d) >= 1) by (nonlinear_arith)
        requires
            d * d >= 1,
            Q2_CAP >= 1,
    ;
    assert(spec_quartic(d) * (PENALIDADE as int) >= PENALIDADE) by (nonlinear_arith)
        requires
            spec_quartic(d) >= 1,
            PENALIDADE >= 1,
    ;
    assert(spec_fitness_of(d) == spec_quartic(d) * (PENALIDADE as int));
    assert(spec_quartic(d) * (PENALIDADE as int) == PENALIDADE * spec_quartic(d)) by (
    nonlinear_arith);
}

} // verus!
