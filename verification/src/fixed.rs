//! Saturating fixed-point arithmetic on a decimal scale.
//!
//! A `Fx` value stands for the real number `v / SCALE`. The operations are
//! total over their numeric inputs: results are clamped to
//! `[-FX_MAX, FX_MAX]` and division by a zero value yields zero, so none of
//! them panics. Every operation is pinned exactly by a spec-level mirror
//! over `int`.

use vstd::prelude::*;

verus! {

/// Number of fixed-point units per real unit (10^9).
pub const SCALE: i64 = 1_000_000_000;

/// Largest magnitude a fixed-point value may take (4 * 10^6 real units).
pub const FX_MAX: i64 = 4_000_000_000_000_000;

/// A fixed-point number: the real value `v / SCALE`.
#[derive(Clone, Copy, PartialEq, Eq, Structural, Debug)]
pub struct Fx {
    pub v: i64,
}

/// Whether a raw fixed-point value lies within the saturation range.
pub open spec fn fx_ok(x: int) -> bool {
    -FX_MAX <= x <= FX_MAX
}

/// Clamp to the saturation range.
pub open spec fn spec_sat(x: int) -> int {
    if x > FX_MAX {
        FX_MAX as int
    } else if x < -FX_MAX {
        -FX_MAX as int
    } else {
        x
    }
}

/// Truncating (round-toward-zero) division by a positive divisor.
pub open spec fn spec_tdiv(a: int, b: int) -> int
    recommends
        b > 0,
{
    if a >= 0 {
        a / b
    } else {
        -((-a) / b)
    }
}

/// Truncating division by any nonzero divisor.
pub open spec fn spec_tdivs(a: int, b: int) -> int
    recommends
        b != 0,
{
    if b > 0 {
        spec_tdiv(a, b)
    } else {
        spec_tdiv(-a, -b)
    }
}

/// Saturating fixed-point addition.
pub open spec fn spec_add(a: int, b: int) -> int {
    spec_sat(a + b)
}

/// Saturating fixed-point subtraction.
pub open spec fn spec_sub(a: int, b: int) -> int {
    spec_sat(a - b)
}

/// Saturating fixed-point multiplication: `(a * b) / SCALE`, truncated.
pub open spec fn spec_mul(a: int, b: int) -> int {
    spec_sat(spec_tdiv(a * b, SCALE as int))
}

/// Saturating fixed-point division: `(a * SCALE) / b`, truncated;
/// zero when the divisor is zero.
pub open spec fn spec_div(a: int, b: int) -> int {
    if b == 0 {
        0
    } else {
        spec_sat(spec_tdivs(a * SCALE, b))
    }
}

/// Truncating division of `a` by a fixed positive integer divisor `k`
/// (the fixed-point value keeps its scale).
pub open spec fn spec_divk(a: int, k: int) -> int
    recommends
        k > 0,
{
    spec_tdiv(a, k)
}

/// The smaller of two fixed-point values.
pub open spec fn spec_min(a: int, b: int) -> int {
    if a <= b {
        a
    } else {
        b
    }
}

/// Magnitude and sign of a truncating division: the quotient lies between
/// zero and the dividend.
pub proof fn lemma_tdiv_bounds(a: int, b: int)
    requires
        b > 0,
    ensures
        a >= 0 ==> 0 <= spec_tdiv(a, b) <= a,
        a < 0 ==> a <= spec_tdiv(a, b) <= 0,
{
    if a >= 0 {
        vstd::arithmetic::div_mod::lemma_div_pos_is_pos(a, b);
        vstd::arithmetic::div_mod::lemma_div_nonincreasing(a, b);
    } else {
        vstd::arithmetic::div_mod::lemma_div_pos_is_pos(-a, b);
        vstd::arithmetic::div_mod::lemma_div_nonincreasing(-a, b);
    }
}

/// Truncating division preserves order of the dividends.
pub proof fn lemma_tdiv_ordered(a1: int, a2: int, b: int)
    requires
        b > 0,
        a1 <= a2,
    ensures
        spec_tdiv(a1, b) <= spec_tdiv(a2, b),
{
    if a1 >= 0 {
        vstd::arithmetic::div_mod::lemma_div_is_ordered(a1, a2, b);
    } else if a2 < 0 {
        vstd::arithmetic::div_mod::lemma_div_is_ordered(-a2, -a1, b);
    } else {
        lemma_tdiv_bounds(a1, b);
        lemma_tdiv_bounds(a2, b);
    }
}

/// Truncating division of an exact multiple is exact.
pub proof fn lemma_tdiv_exact(k: int, b: int)
    requires
        b > 0,
    ensures
        spec_tdiv(k * b, b) == k,
{
    if k >= 0 {
        vstd::arithmetic::div_mod::lemma_div_by_multiple(k, b);
    } else {
        vstd::arithmetic::div_mod::lemma_div_by_multiple(-k, b);
        assert(-(k * b) == (-k) * b) by (nonlinear_arith);
        assert(k * b < 0) by (nonlinear_arith)
            requires
                k < 0,
                b > 0,
        ;
    }
}

/// Widening multiplication of two machine words into `i128`.
fn wide_mul(a: i64, b: i64) -> (r: i128)
    ensures
        r == a * b,
        -0x4000_0000_0000_0000_0000_0000_0000_0000 <= r
            <= 0x4000_0000_0000_0000_0000_0000_0000_0000,
{
    proof {
        assert(-0x4000_0000_0000_0000_0000_0000_0000_0000 <= a * b
            <= 0x4000_0000_0000_0000_0000_0000_0000_0000) by (nonlinear_arith)
            requires
                -0x8000_0000_0000_0000 <= a <= 0x7fff_ffff_ffff_ffff,
                -0x8000_0000_0000_0000 <= b <= 0x7fff_ffff_ffff_ffff,
        ;
    }
    (a as i128) * (b as i128)
}

/// Multiplication of two `i128` values of machine-word magnitude.
pub(crate) fn mul_i128(a: i128, b: i128) -> (r: i128)
    requires
        -0x8000_0000_0000_0000 <= a <= 0x8000_0000_0000_0000,
        -0x8000_0000_0000_0000 <= b <= 0x8000_0000_0000_0000,
    ensures
        r == a * b,
        -0x4000_0000_0000_0000_0000_0000_0000_0000 <= r
            <= 0x4000_0000_0000_0000_0000_0000_0000_0000,
{
    proof {
        assert(-0x4000_0000_0000_0000_0000_0000_0000_0000 <= a * b
            <= 0x4000_0000_0000_0000_0000_0000_0000_0000) by (nonlinear_arith)
            requires
                -0x8000_0000_0000_0000 <= a <= 0x8000_0000_0000_0000,
                -0x8000_0000_0000_0000 <= b <= 0x8000_0000_0000_0000,
        ;
    }
    a * b
}

/// Multiplication of two `i128` values whose product is known to fit.
pub(crate) fn mul_i128_exact(a: i128, b: i128) -> (r: i128)
    requires
        -i128::MAX <= a * b <= i128::MAX,
    ensures
        r == a * b,
{
    a * b
}

/// Truncating division of an `i128` by a positive divisor.
pub(crate) fn tdiv_i128(a: i128, b: i128) -> (r: i128)
    requires
        b > 0,
        a > i128::MIN,
    ensures
        r == spec_tdiv(a as int, b as int),
{
    if a >= 0 {
        a / b
    } else {
        -((-a) / b)
    }
}

/// Truncating division of an `i128` by any nonzero divisor of `i64` range.
fn tdivs_i128(a: i128, b: i128) -> (r: i128)
    requires
        b != 0,
        -0x8000_0000_0000_0000 <= b <= 0x7fff_ffff_ffff_ffff,
        a > i128::MIN,
        a < i128::MAX,
    ensures
        r == spec_tdivs(a as int, b as int),
{
    if b > 0 {
        tdiv_i128(a, b)
    } else {
        tdiv_i128(-a, -b)
    }
}

/// Clamp an `i128` into the `Fx` range.
pub(crate) fn sat_i128(x: i128) -> (r: Fx)
    ensures
        r.v == spec_sat(x as int),
        fx_ok(r.v as int),
{
    if x > FX_MAX as i128 {
        Fx { v: FX_MAX }
    } else if x < -(FX_MAX as i128) {
        Fx { v: -FX_MAX }
    } else {
        Fx { v: x as i64 }
    }
}

/// Saturating fixed-point addition.
pub fn fx_add(a: Fx, b: Fx) -> (r: Fx)
    ensures
        r.v == spec_add(a.v as int, b.v as int),
        fx_ok(r.v as int),
{
    sat_i128((a.v as i128) + (b.v as i128))
}

/// Saturating fixed-point subtraction.
pub fn fx_sub(a: Fx, b: Fx) -> (r: Fx)
    ensures
        r.v == spec_sub(a.v as int, b.v as int),
        fx_ok(r.v as int),
{
    sat_i128((a.v as i128) - (b.v as i128))
}

/// Saturating fixed-point multiplication.
pub fn fx_mul(a: Fx, b: Fx) -> (r: Fx)
    ensures
        r.v == spec_mul(a.v as int, b.v as int),
        fx_ok(r.v as int),
{
    let p = wide_mul(a.v, b.v);
    let q = tdiv_i128(p, SCALE as i128);
    sat_i128(q)
}

/// Saturating fixed-point division; zero when the divisor is zero.
pub fn fx_div(a: Fx, b: Fx) -> (r: Fx)
    ensures
        r.v == spec_div(a.v as int, b.v as int),
        fx_ok(r.v as int),
{
    if b.v == 0 {
        Fx { v: 0 }
    } else {
        let p = wide_mul(a.v, SCALE);
        let q = tdivs_i128(p, b.v as i128);
        sat_i128(q)
    }
}

/// Truncating division of a fixed-point value by a positive machine integer.
pub fn fx_divk(a: Fx, k: i64) -> (r: Fx)
    requires
        k > 0,
    ensures
        r.v == spec_divk(a.v as int, k as int),
{
    proof {
        lemma_tdiv_bounds(a.v as int, k as int);
    }
    let q = tdiv_i128(a.v as i128, k as i128);
    Fx { v: q as i64 }
}

/// The smaller of two fixed-point values.
pub fn fx_min(a: Fx, b: Fx) -> (r: Fx)
    ensures
        r.v == spec_min(a.v as int, b.v as int),
{
    if a.v <= b.v {
        a
    } else {
        b
    }
}

} // verus!
