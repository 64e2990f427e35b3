//! Fixed-point sine and arcsine.
//!
//! The sine is computed by reducing the argument to `[-pi/2, pi/2]` with the
//! identities `sin(x) = sin(x mod 2*pi)`, `sin(x) = sin(pi - x)` and
//! `sin(x) = sin(x - 2*pi)`, then evaluating the odd Taylor series in Horner
//! form, `t * (1 - t^2/6 * (1 - t^2/20 * (1 - t^2/42 * (1 - t^2/72 *
//! (1 - t^2/110 * (1 - t^2/156))))))`, whose stage divisors are exact
//! integers. The arcsine is a fixed-depth bisection of the sine over
//! `[0, pi/2]`. Both are pinned exactly by spec-level mirrors; their distance
//! to the real functions is a numerical-accuracy question that the test suite
//! checks against closed forms.

use vstd::prelude::*;
use crate::fixed::{
    Fx, SCALE, fx_ok, spec_tdiv, lemma_tdiv_bounds, lemma_tdiv_ordered, lemma_tdiv_exact,
};

verus! {

/// pi in fixed-point units (rounded to nearest).
pub const PI_FX: i64 = 3_141_592_654;

/// pi/2 in fixed-point units.
pub const HALF_PI_FX: i64 = 1_570_796_327;

/// 2*pi in fixed-point units (rounded to nearest).
pub const TWO_PI_FX: i64 = 6_283_185_307;

/// 3*pi/2 in fixed-point units, the upper edge of the middle reduction band.
pub const THREE_HALF_PI_FX: i64 = 4_712_388_981;

/// Number of bisection steps used by the arcsine.
pub const ASIN_STEPS: u64 = 32;

/// The argument reduced into `[0, 2*pi)`.
pub open spec fn spec_mod_two_pi(x: int) -> int {
    x % (TWO_PI_FX as int)
}

/// Fold a reduced argument into `[-pi/2, pi/2]`, on which the sine keeps
/// its value.
pub open spec fn spec_fold(r: int) -> int
    recommends
        0 <= r < TWO_PI_FX,
{
    if r <= HALF_PI_FX {
        r
    } else if r <= THREE_HALF_PI_FX {
        PI_FX - r
    } else {
        r - TWO_PI_FX
    }
}

/// One Horner stage: `SCALE - ((u * p) / SCALE) / c`.
pub open spec fn spec_sin_stage(u: int, p: int, c: int) -> int
    recommends
        u >= 0,
        p >= 0,
        c > 0,
{
    SCALE - spec_tdiv(spec_tdiv(u * p, SCALE as int), c)
}

/// The Horner form of the odd Taylor series on `[-pi/2, pi/2]`.
pub open spec fn spec_sin_poly(t: int) -> int {
    let u = spec_tdiv(t * t, SCALE as int);
    let p1 = spec_sin_stage(u, SCALE as int, 156);
    let p2 = spec_sin_stage(u, p1, 110);
    let p3 = spec_sin_stage(u, p2, 72);
    let p4 = spec_sin_stage(u, p3, 42);
    let p5 = spec_sin_stage(u, p4, 20);
    let p6 = spec_sin_stage(u, p5, 6);
    spec_tdiv(t * p6, SCALE as int)
}

/// The fixed-point sine of any argument.
pub open spec fn spec_sin(x: int) -> int {
    spec_sin_poly(spec_fold(spec_mod_two_pi(x)))
}

/// Reduce an argument into `[0, 2*pi)`.
fn mod_two_pi(x: i64) -> (r: i64)
    ensures
        r == spec_mod_two_pi(x as int),
        0 <= r < TWO_PI_FX,
{
    let xi = x as i128;
    let b = TWO_PI_FX as i128;
    let q = crate::fixed::tdiv_i128(xi, b);
    proof {
        lemma_tdiv_bounds(xi as int, b as int);
    }
    let qb = crate::fixed::mul_i128(q, b);
    let r0 = xi - qb;
    let r1 = if r0 < 0 {
        r0 + b
    } else {
        r0
    };
    proof {
        let bi = b as int;
        vstd::arithmetic::div_mod::lemma_fundamental_div_mod(xi as int, bi);
        vstd::arithmetic::div_mod::lemma_mod_division_less_than_divisor(xi as int, bi);
        if xi >= 0 {
            assert(q == xi as int / bi);
            assert(r0 == xi - bi * (xi as int / bi));
        } else {
            vstd::arithmetic::div_mod::lemma_fundamental_div_mod(-(xi as int), bi);
            vstd::arithmetic::div_mod::lemma_mod_division_less_than_divisor(-(xi as int), bi);
            let qq = (-(xi as int)) / bi;
            assert(q == -qq);
            assert(-(xi as int) == bi * qq + (-(xi as int)) % bi);
            assert(r0 == xi + qq * bi) by (nonlinear_arith)
                requires
                    q == -qq,
                    r0 == xi - q * b,
                    bi == b,
            ;
            assert(r0 == -((-(xi as int)) % bi)) by (nonlinear_arith)
                requires
                    r0 == xi as int + qq * bi,
                    -(xi as int) == bi * qq + (-(xi as int)) % bi,
            ;
            assert(-bi < r0 <= 0);
            vstd::arithmetic::div_mod::lemma_fundamental_div_mod_converse(
                xi as int,
                bi,
                if r0 < 0 { -qq - 1 } else { -qq },
                r1 as int,
            );
        }
    }
    r1 as i64
}

/// Largest value `t*t/SCALE` can take for `|t| <= pi/2`.
pub const SIN_U_MAX: i64 = 2_467_401_110;

/// One Horner stage of the sine series.
fn sin_stage(u: i128, p: i128, c: i128) -> (r: i128)
    requires
        0 <= u <= SIN_U_MAX,
        0 <= p <= SCALE,
        6 <= c <= 156,
    ensures
        r == spec_sin_stage(u as int, p as int, c as int),
        0 <= r <= SCALE,
{
    proof {
        assert(0 <= u * p <= SIN_U_MAX * (SCALE as int)) by (nonlinear_arith)
            requires
                0 <= u <= SIN_U_MAX,
                0 <= p <= SCALE,
        ;
    }
    let w = crate::fixed::mul_i128(u, p);
    let d1 = crate::fixed::tdiv_i128(w, SCALE as i128);
    proof {
        lemma_tdiv_bounds(w as int, SCALE as int);
        lemma_tdiv_ordered(w as int, SIN_U_MAX * (SCALE as int), SCALE as int);
        lemma_tdiv_exact(SIN_U_MAX as int, SCALE as int);
    }
    let d2 = crate::fixed::tdiv_i128(d1, c);
    proof {
        lemma_tdiv_bounds(d1 as int, c as int);
        lemma_tdiv_ordered(d1 as int, SIN_U_MAX as int, c as int);
        lemma_tdiv_ordered(spec_tdiv(SIN_U_MAX as int, c as int), SIN_U_MAX as int, 6);
        lemma_tdiv_bounds(SIN_U_MAX as int, c as int);
        assert(spec_tdiv(SIN_U_MAX as int, 6) < SCALE);
        assert(d2 <= spec_tdiv(SIN_U_MAX as int, c as int));
        assert(spec_tdiv(SIN_U_MAX as int, c as int) <= spec_tdiv(SIN_U_MAX as int, 6)) by {
            lemma_tdiv_mono_divisor(SIN_U_MAX as int, 6, c as int);
        }
    }
    (SCALE as i128) - d2
}

/// A nonnegative dividend divided by a larger positive divisor gives a
/// result no larger.
proof fn lemma_tdiv_mono_divisor(a: int, c1: int, c2: int)
    requires
        a >= 0,
        0 < c1 <= c2,
    ensures
        spec_tdiv(a, c2) <= spec_tdiv(a, c1),
{
    vstd::arithmetic::div_mod::lemma_div_is_ordered_by_denominator(a, c1, c2);
}

/// The Taylor-series sine on `[-pi/2, pi/2]`.
fn sin_poly(t: i64) -> (r: i64)
    requires
        -HALF_PI_FX <= t <= HALF_PI_FX,
    ensures
        r == spec_sin_poly(t as int),
        -HALF_PI_FX <= r <= HALF_PI_FX,
{
    let ti = t as i128;
    proof {
        assert(0 <= ti * ti <= (HALF_PI_FX as int) * (HALF_PI_FX as int)) by (nonlinear_arith)
            requires
                -HALF_PI_FX <= ti <= HALF_PI_FX,
        ;
    }
    let u = crate::fixed::tdiv_i128(crate::fixed::mul_i128(ti, ti), SCALE as i128);
    proof {
        lemma_tdiv_bounds(ti as int * ti as int, SCALE as int);
        lemma_tdiv_ordered(
            ti as int * ti as int,
            (HALF_PI_FX as int) * (HALF_PI_FX as int),
            SCALE as int,
        );
        assert(spec_tdiv((HALF_PI_FX as int) * (HALF_PI_FX as int), SCALE as int) <= SIN_U_MAX);
    }
    let p1 = sin_stage(u, SCALE as i128, 156);
    let p2 = sin_stage(u, p1, 110);
    let p3 = sin_stage(u, p2, 72);
    let p4 = sin_stage(u, p3, 42);
    let p5 = sin_stage(u, p4, 20);
    let p6 = sin_stage(u, p5, 6);
    proof {
        assert(-(HALF_PI_FX as int) * (SCALE as int) <= ti * p6 <= (HALF_PI_FX as int) * (
        SCALE as int)) by (nonlinear_arith)
            requires
                -HALF_PI_FX <= ti <= HALF_PI_FX,
                0 <= p6 <= SCALE,
        ;
        lemma_tdiv_ordered(ti as int * p6 as int, (HALF_PI_FX as int) * (SCALE as int), SCALE as int);
        lemma_tdiv_ordered(-(HALF_PI_FX as int) * (SCALE as int), ti as int * p6 as int, SCALE as int);
        lemma_tdiv_exact(HALF_PI_FX as int, SCALE as int);
        lemma_tdiv_exact(-(HALF_PI_FX as int), SCALE as int);
        assert(-(HALF_PI_FX as int) * (SCALE as int) == (-(HALF_PI_FX as int)) * (SCALE as int));
    }
    let r = crate::fixed::tdiv_i128(crate::fixed::mul_i128(ti, p6), SCALE as i128);
    r as i64
}

/// Fixed-point sine of any argument; the result stays within `[-pi/2, pi/2]`
/// units, so it is always a valid fixed-point value.
pub fn sin_fx(x: Fx) -> (r: Fx)
    ensures
        r.v == spec_sin(x.v as int),
        -HALF_PI_FX <= r.v <= HALF_PI_FX,
        fx_ok(r.v as int),
{
    let m = mod_two_pi(x.v);
    let t = if m <= HALF_PI_FX {
        m
    } else if m <= THREE_HALF_PI_FX {
        PI_FX - m
    } else {
        m - TWO_PI_FX
    };
    Fx { v: sin_poly(t) }
}

/// The bisection that computes the fixed-point arcsine: after `k` halvings
/// of `[lo, hi]`, the upper end is the answer.
pub open spec fn spec_asin_iter(y: int, lo: int, hi: int, k: nat) -> int
    decreases k,
{
    if k == 0 {
        hi
    } else {
        let mid = spec_tdiv(lo + hi, 2);
        if spec_sin_poly(mid) < y {
            spec_asin_iter(y, mid, hi, (k - 1) as nat)
        } else {
            spec_asin_iter(y, lo, mid, (k - 1) as nat)
        }
    }
}

/// Fixed-point arcsine on `[0, 1]`, as a bisection of the sine series over
/// `[0, pi/2]`.
pub open spec fn spec_asin(y: int) -> int {
    spec_asin_iter(y, 0, HALF_PI_FX as int, ASIN_STEPS as nat)
}

/// Fixed-point arcsine of a value in `[0, 1]`.
pub fn asin_fx(y: Fx) -> (r: Fx)
    requires
        0 <= y.v <= SCALE,
    ensures
        r.v == spec_asin(y.v as int),
        0 <= r.v <= HALF_PI_FX,
{
    let mut lo: i64 = 0;
    let mut hi: i64 = HALF_PI_FX;
    let mut k: u64 = 0;
    while k < ASIN_STEPS
        invariant
            0 <= lo <= hi <= HALF_PI_FX,
            0 <= k <= ASIN_STEPS,
            0 <= y.v <= SCALE,
            spec_asin_iter(y.v as int, lo as int, hi as int, (ASIN_STEPS - k) as nat)
                == spec_asin(y.v as int),
        decreases ASIN_STEPS - k,
    {
        let mid = (lo + hi) / 2;
        proof {
            vstd::arithmetic::div_mod::lemma_div_pos_is_pos(lo as int + hi as int, 2);
            vstd::arithmetic::div_mod::lemma_div_is_ordered(lo as int + lo as int, lo as int + hi as int, 2);
            vstd::arithmetic::div_mod::lemma_div_is_ordered(lo as int + hi as int, hi as int + hi as int, 2);
            vstd::arithmetic::div_mod::lemma_div_by_multiple(lo as int, 2);
            vstd::arithmetic::div_mod::lemma_div_by_multiple(hi as int, 2);
            assert(lo as int + lo as int == lo as int * 2);
            assert(hi as int + hi as int == hi as int * 2);
        }
        let s = sin_poly(mid);
        if s < y.v {
            lo = mid;
        } else {
            hi = mid;
        }
        k = k + 1;
    }
    Fx { v: hi }
}

} // verus!
