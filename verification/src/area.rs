//! The equal-area evaluator: three signed energy areas under the
//! power-angle curves, by composite Simpson quadrature.
//!
//! The integration bounds are the initial equilibrium angle
//! `asin(pm / pe1)`, the latched clearing and reclosing angles, and the
//! supplementary equilibrium angle `pi - asin(pm / pe1)`. Each area is the
//! definite integral of a power difference over angle:
//! `pm - pe2 * sin(x)` from the equilibrium angle to the clearing angle,
//! `pm - pe3 * sin(x)` from the clearing angle to the reclosing angle, and
//! `pe1 * sin(x) - pm` from the reclosing angle to the supplementary angle.
//! A zero-width interval contributes zero area. When the mechanical power
//! exceeds the pre-fault maximum the equilibrium angle is undefined and the
//! evaluator signals that by returning nothing.

use vstd::prelude::*;
use crate::fixed::{
    Fx, SCALE, FX_MAX, fx_ok, fx_div, spec_sub, spec_mul, spec_div, spec_sat, spec_tdiv,
    lemma_tdiv_bounds, lemma_tdiv_ordered, lemma_tdiv_exact, mul_i128, mul_i128_exact, tdiv_i128,
    sat_i128, fx_sub, fx_mul,
};
use crate::trig::{PI_FX, HALF_PI_FX, spec_sin, sin_fx, spec_asin, asin_fx};

verus! {

/// Subdivision count used for each area integral.
pub const NUM_PONTOS: usize = 1_000_000;

/// Whether the equilibrium angles of the power curve exist: the curve must
/// have a positive maximum at least as large as the mechanical power, which
/// itself must not be negative.
pub open spec fn spec_equilibrium_defined(pe_max: int, pm: int) -> bool {
    0 < pe_max && 0 <= pm <= pe_max
}

/// The integrand of one area: a power difference at angle `x`. With
/// `invert` false it is `pm - pe * sin(x)`; with `invert` true it is
/// `pe * sin(x) - pm`.
pub open spec fn spec_integrand(pe: int, pm: int, invert: bool, x: int) -> int {
    if invert {
        spec_sub(spec_mul(pe, spec_sin(x)), pm)
    } else {
        spec_sub(pm, spec_mul(pe, spec_sin(x)))
    }
}

/// The `i`-th quadrature node: `a + (i * w) / n`, truncated.
pub open spec fn spec_x_at(a: int, w: int, n: int, i: int) -> int {
    a + spec_tdiv(i * w, n)
}

/// The Simpson coefficient of node `i` out of `n`: 1 at the ends, 4 on odd
/// interior nodes, 2 on even interior nodes.
pub open spec fn spec_coeff(i: int, n: int) -> int {
    if i == 0 || i == n {
        1
    } else if i % 2 == 0 {
        2
    } else {
        4
    }
}

/// The weighted sum of the first `k` quadrature nodes.
pub open spec fn spec_simpson_sum(
    a: int,
    w: int,
    n: int,
    pe: int,
    pm: int,
    invert: bool,
    k: nat,
) -> int
    decreases k,
{
    if k == 0 {
        0
    } else {
        spec_simpson_sum(a, w, n, pe, pm, invert, (k - 1) as nat) + spec_coeff(k - 1, n)
            * spec_integrand(pe, pm, invert, spec_x_at(a, w, n, k - 1))
    }
}

/// Composite Simpson quadrature of a power difference from `a` to `b` with
/// `n` subdivisions (rounded up to even): the weighted node sum times
/// `(b - a) / (3 * n)`, truncated at fixed-point scale. A zero-width
/// interval integrates to zero; a reversed interval gives the negated
/// integral, as the signed width carries the sign.
pub open spec fn spec_simpson(a: int, b: int, n: int, pe: int, pm: int, invert: bool) -> int {
    if a == b {
        0
    } else {
        let ne = if n % 2 == 0 {
            n
        } else {
            n + 1
        };
        let w = b - a;
        let soma = spec_simpson_sum(a, w, ne, pe, pm, invert, (ne + 1) as nat);
        spec_sat(spec_tdiv(soma * w, 3 * ne * SCALE))
    }
}

/// Evaluate the integrand at a node.
fn eval_integrand(pe: Fx, pm: Fx, invert: bool, x: Fx) -> (r: Fx)
    ensures
        r.v == spec_integrand(pe.v as int, pm.v as int, invert, x.v as int),
        fx_ok(r.v as int),
{
    let s = fx_mul(pe, sin_fx(x));
    if invert {
        fx_sub(s, pm)
    } else {
        fx_sub(pm, s)
    }
}

/// Compute the `i`-th quadrature node; it stays between `a` and `b`.
fn x_at(a: i64, w: i128, n: usize, i: usize) -> (x: i64)
    requires
        fx_ok(a as int),
        -2 * FX_MAX <= w <= 2 * FX_MAX,
        fx_ok(a + w),
        1 <= n <= 1_000_001,
        i <= n,
    ensures
        x == spec_x_at(a as int, w as int, n as int, i as int),
        fx_ok(x as int),
{
    let iw = mul_i128(i as i128, w);
    let q = tdiv_i128(iw, n as i128);
    proof {
        let wi = w as int;
        let ni = n as int;
        let ii = i as int;
        if wi >= 0 {
            assert(0 <= ii * wi <= ni * wi) by (nonlinear_arith)
                requires
                    0 <= ii <= ni,
                    wi >= 0,
            ;
            lemma_tdiv_bounds(ii * wi, ni);
            lemma_tdiv_ordered(ii * wi, ni * wi, ni);
            lemma_tdiv_exact(wi, ni);
            assert(ni * wi == wi * ni) by (nonlinear_arith);
        } else {
            assert(ni * wi <= ii * wi <= 0) by (nonlinear_arith)
                requires
                    0 <= ii <= ni,
                    wi < 0,
            ;
            lemma_tdiv_bounds(ii * wi, ni);
            lemma_tdiv_ordered(ni * wi, ii * wi, ni);
            lemma_tdiv_exact(wi, ni);
            assert(ni * wi == wi * ni) by (nonlinear_arith);
        }
    }
    a + (q as i64)
}

/// Composite Simpson quadrature of the power difference selected by
/// `pe_max`, `pm` and `invert`, from `a` to `b`, with `n` subdivisions
/// (rounded up to even).
#[verifier::rlimit(60)]
pub fn integrar_simpson(a: Fx, b: Fx, n: usize, pe_max: Fx, pm: Fx, invert: bool) -> (r: Fx)
    requires
        fx_ok(a.v as int),
        fx_ok(b.v as int),
        1 <= n <= 1_000_000,
    ensures
        r.v == spec_simpson(a.v as int, b.v as int, n as int, pe_max.v as int, pm.v as int,
            invert),
        fx_ok(r.v as int),
{
    if a.v == b.v {
        return Fx { v: 0 };
    }
    let ne: usize = if n % 2 == 0 {
        n
    } else {
        n + 1
    };
    let w: i128 = (b.v as i128) - (a.v as i128);
    let x0 = x_at(a.v, w, ne, 0);
    let xn = x_at(a.v, w, ne, ne);
    let f0 = eval_integrand(pe_max, pm, invert, Fx { v: x0 });
    let fn_end = eval_integrand(pe_max, pm, invert, Fx { v: xn });
    let mut soma: i128 = (f0.v as i128) + (fn_end.v as i128);
    proof {
        assert(spec_simpson_sum(a.v as int, w as int, ne as int, pe_max.v as int, pm.v as int,
            invert, 0) == 0);
        assert(spec_simpson_sum(a.v as int, w as int, ne as int, pe_max.v as int, pm.v as int,
            invert, 1) == spec_coeff(0, ne as int) * spec_integrand(pe_max.v as int, pm.v as int,
            invert, spec_x_at(a.v as int, w as int, ne as int, 0)));
    }
    let ghost av = a.v as int;
    let ghost bv = b.v as int;
    let ghost pev = pe_max.v as int;
    let ghost pmv = pm.v as int;
    let ghost wi = w as int;
    let ghost nei = ne as int;
    let mut i: usize = 1;
    while i < ne
        invariant
            1 <= i <= ne,
            2 <= ne <= 1_000_000,
            av == a.v as int,
            bv == b.v as int,
            pev == pe_max.v as int,
            pmv == pm.v as int,
            wi == w,
            nei == ne,
            wi == bv - av,
            fx_ok(av),
            fx_ok(bv),
            fn_end.v == spec_integrand(pev, pmv, invert, spec_x_at(av, wi, nei, nei)),
            soma == spec_simpson_sum(av, wi, nei, pev, pmv, invert, i as nat) + fn_end.v,
            -(4 * i + 2) * FX_MAX <= soma <= (4 * i + 2) * FX_MAX,
        decreases ne - i,
    {
        let x = x_at(a.v, w, ne, i);
        let fv = eval_integrand(pe_max, pm, invert, Fx { v: x });
        let add = if i % 2 == 0 {
            2 * (fv.v as i128)
        } else {
            4 * (fv.v as i128)
        };
        proof {
            assert(spec_coeff(i as int, nei) == if i % 2 == 0 {
                2int
            } else {
                4int
            });
            assert(spec_coeff(i as int, nei) * spec_integrand(pev, pmv, invert,
                spec_x_at(av, wi, nei, i as int)) == add);
            assert(-(4 * (i + 1) + 2) * FX_MAX <= soma + add <= (4 * (i + 1) + 2) * FX_MAX)
                by (nonlinear_arith)
                requires
                    -(4 * i + 2) * FX_MAX <= soma <= (4 * i + 2) * FX_MAX,
                    -4 * FX_MAX <= add <= 4 * FX_MAX,
            ;
        }
        soma = soma + add;
        i = i + 1;
    }
    proof {
        assert(spec_simpson_sum(av, wi, nei, pev, pmv, invert, (nei + 1) as nat)
            == spec_simpson_sum(av, wi, nei, pev, pmv, invert, nei as nat) + spec_coeff(nei, nei)
            * spec_integrand(pev, pmv, invert, spec_x_at(av, wi, nei, nei)));
        assert(-i128::MAX <= soma * w <= i128::MAX) by (nonlinear_arith)
            requires
                -(4 * 1_000_000 + 2) * FX_MAX <= soma <= (4 * 1_000_000 + 2) * FX_MAX,
                -2 * FX_MAX <= w <= 2 * FX_MAX,
                FX_MAX == 4_000_000_000_000_000,
        ;
    }
    let prod = mul_i128_exact(soma, w);
    let divisor: i128 = 3 * (ne as i128) * (SCALE as i128);
    let q = tdiv_i128(prod, divisor);
    sat_i128(q)
}

/// The two equilibrium angles of the pre-fault power curve: the solutions
/// of `pe_max * sin(x) = pm` on `[0, pi]`, that is `asin(pm / pe_max)` and
/// its supplement. Returns nothing when the mechanical power exceeds the
/// curve maximum (or the inputs are not a physical power pair), the
/// domain-undefined condition of the arcsine.
pub fn encontrar_intersecoes(pe_max: Fx, pm: Fx) -> (r: Option<(Fx, Fx)>)
    ensures
        r is Some <==> spec_equilibrium_defined(pe_max.v as int, pm.v as int),
        r is Some ==> {
            let lo = r.unwrap().0;
            let hi = r.unwrap().1;
            &&& lo.v == spec_asin(spec_div(pm.v as int, pe_max.v as int))
            &&& hi.v == PI_FX - lo.v
            &&& 0 <= lo.v <= HALF_PI_FX
            &&& HALF_PI_FX <= hi.v <= PI_FX
        },
{
    if pe_max.v <= 0 || pm.v < 0 || pm.v > pe_max.v {
        None
    } else {
        let y = fx_div(pm, pe_max);
        proof {
            let pmv = pm.v as int;
            let pev = pe_max.v as int;
            assert(0 <= pmv * SCALE <= pev * SCALE) by (nonlinear_arith)
                requires
                    0 <= pmv <= pev,
                    SCALE >= 1,
            ;
            lemma_tdiv_bounds(pmv * SCALE, pev);
            lemma_tdiv_ordered(pmv * SCALE, pev * SCALE, pev);
            lemma_tdiv_exact(SCALE as int, pev);
            assert(pev * SCALE == SCALE * pev) by (nonlinear_arith);
        }
        let lo = asin_fx(y);
        Some((lo, Fx { v: PI_FX - lo.v }))
    }
}

/// The three signed energy areas of the equal-area criterion, each by
/// Simpson quadrature with `NUM_PONTOS` subdivisions: accelerating energy
/// from the equilibrium angle to the clearing angle under the fault curve,
/// the energy from the clearing angle to the reclosing angle under the
/// post-fault curve, and decelerating energy from the reclosing angle to
/// the supplementary equilibrium angle under the pre-fault curve. Returns
/// nothing exactly when the equilibrium angle is undefined.
pub fn calcular_areas_melhorado(pe1: Fx, pe2: Fx, pe3: Fx, pm: Fx, cra: Fx, crr: Fx) -> (r:
    Option<(Fx, Fx, Fx)>)
    requires
        fx_ok(cra.v as int),
        fx_ok(crr.v as int),
    ensures
        r is Some <==> spec_equilibrium_defined(pe1.v as int, pm.v as int),
        r is Some ==> {
            let dn_ini = spec_asin(spec_div(pm.v as int, pe1.v as int));
            let dm = PI_FX - dn_ini;
            &&& r.unwrap().0.v == spec_simpson(dn_ini, cra.v as int, NUM_PONTOS as int,
                pe2.v as int, pm.v as int, false)
            &&& r.unwrap().1.v == spec_simpson(cra.v as int, crr.v as int, NUM_PONTOS as int,
                pe3.v as int, pm.v as int, false)
            &&& r.unwrap().2.v == spec_simpson(crr.v as int, dm, NUM_PONTOS as int, pe1.v as int,
                pm.v as int, true)
            &&& fx_ok(r.unwrap().0.v as int)
            &&& fx_ok(r.unwrap().1.v as int)
            &&& fx_ok(r.unwrap().2.v as int)
        },
{
    match encontrar_intersecoes(pe1, pm) {
        None => None,
        Some((dn_ini, dm)) => {
            let area1 = integrar_simpson(dn_ini, cra, NUM_PONTOS, pe2, pm, false);
            let area2 = integrar_simpson(cra, crr, NUM_PONTOS, pe3, pm, false);
            let area3 = integrar_simpson(crr, dm, NUM_PONTOS, pe1, pm, true);
            Some((area1, area2, area3))
        },
    }
}

} // verus!
