//! One fixed step of the swing equation by the classical fourth-order
//! Runge-Kutta scheme, with a damping term.
//!
//! The coupled first-order system is
//! `d(delta)/dt = delta_w` and
//! `d(delta_w)/dt = (1/m) * (pm - pe * sin(delta)) - (d/m) * delta_w`,
//! with the per-unit inertia coefficient `m = h / (pi * f)`. Four stages
//! evaluate both derivatives at intermediate states; the update is the
//! weighted average `(s1 + 2*s2 + 2*s3 + s4) / 6` applied to angle and speed
//! independently. The step is pinned exactly by `spec_rk_step`.

use vstd::prelude::*;
use crate::fixed::{
    Fx, SCALE, fx_ok, fx_add, fx_sub, fx_mul, fx_div, fx_divk, spec_add, spec_sub, spec_mul,
    spec_div, spec_divk,
};
use crate::trig::{PI_FX, spec_sin, sin_fx};

verus! {

/// The per-unit inertia coefficient `h / (pi * f)`.
pub open spec fn spec_m(h: int, f: int) -> int {
    spec_div(h, spec_mul(PI_FX as int, f))
}

/// The speed derivative scaled by the step:
/// `(1/m) * (pm - pe * sin(x)) * dt - (d/m) * w * dt`,
/// where `am = 1/m` and `dm = d/m` come precomputed.
pub open spec fn spec_rk_l(am: int, dm: int, pm: int, pe: int, dt: int, x: int, w: int) -> int {
    spec_sub(
        spec_mul(spec_mul(am, spec_sub(pm, spec_mul(pe, spec_sin(x)))), dt),
        spec_mul(spec_mul(dm, w), dt),
    )
}

/// The angle derivative scaled by the step: `w * dt`.
pub open spec fn spec_rk_k(w: int, dt: int) -> int {
    spec_mul(w, dt)
}

/// One full Runge-Kutta step: the pair (next speed deviation, next angle).
#[verifier::opaque]
pub open spec fn spec_rk_step(
    pm: int,
    h: int,
    f: int,
    d: int,
    pe: int,
    dt: int,
    dw: int,
    dn: int,
) -> (int, int) {
    let m = spec_m(h, f);
    let am = spec_div(SCALE as int, m);
    let dm = spec_div(d, m);
    let k1 = spec_rk_k(dw, dt);
    let l1 = spec_rk_l(am, dm, pm, pe, dt, dn, dw);
    let w2 = spec_add(dw, spec_divk(l1, 2));
    let k2 = spec_rk_k(w2, dt);
    let l2 = spec_rk_l(am, dm, pm, pe, dt, spec_add(dn, spec_divk(k1, 2)), w2);
    let w3 = spec_add(dw, spec_divk(l2, 2));
    let k3 = spec_rk_k(w3, dt);
    let l3 = spec_rk_l(am, dm, pm, pe, dt, spec_add(dn, spec_divk(k2, 2)), w3);
    let w4 = spec_add(dw, l3);
    let k4 = spec_rk_k(w4, dt);
    let l4 = spec_rk_l(am, dm, pm, pe, dt, spec_add(dn, k3), w4);
    let dl = spec_divk(
        spec_add(spec_add(spec_add(l1, spec_add(l2, l2)), spec_add(l3, l3)), l4),
        6,
    );
    let dk = spec_divk(
        spec_add(spec_add(spec_add(k1, spec_add(k2, k2)), spec_add(k3, k3)), k4),
        6,
    );
    (spec_add(dw, dl), spec_add(dn, dk))
}

/// The speed derivative scaled by the step, executable.
fn rk_l(am: Fx, dm: Fx, pm: Fx, pe: Fx, dt: Fx, x: Fx, w: Fx) -> (r: Fx)
    ensures
        r.v == spec_rk_l(am.v as int, dm.v as int, pm.v as int, pe.v as int, dt.v as int,
            x.v as int, w.v as int),
        fx_ok(r.v as int),
{
    let accel = fx_mul(fx_mul(am, fx_sub(pm, fx_mul(pe, sin_fx(x)))), dt);
    let damp = fx_mul(fx_mul(dm, w), dt);
    fx_sub(accel, damp)
}

/// Advance the rotor state one step: given the current speed deviation and
/// angle, the active power maximum, the step, the damping coefficient and
/// the machine constants, return the next `(speed deviation, angle)`.
pub fn runge_kutta_with_d(
    delta_w: Fx,
    delta_n: Fx,
    pe: Fx,
    delta_t: Fx,
    d: Fx,
    pm: Fx,
    h: Fx,
    f: Fx,
) -> (r: (Fx, Fx))
    ensures
        r.0.v == spec_rk_step(pm.v as int, h.v as int, f.v as int, d.v as int, pe.v as int,
            delta_t.v as int, delta_w.v as int, delta_n.v as int).0,
        r.1.v == spec_rk_step(pm.v as int, h.v as int, f.v as int, d.v as int, pe.v as int,
            delta_t.v as int, delta_w.v as int, delta_n.v as int).1,
        fx_ok(r.0.v as int),
        fx_ok(r.1.v as int),
{
    proof {
        reveal(spec_rk_step);
    }
    let m = fx_div(h, fx_mul(Fx { v: PI_FX }, f));
    let am = fx_div(Fx { v: SCALE }, m);
    let dm = fx_div(d, m);

    let k1 = fx_mul(delta_w, delta_t);
    let l1 = rk_l(am, dm, pm, pe, delta_t, delta_n, delta_w);

    let w2 = fx_add(delta_w, fx_divk(l1, 2));
    let k2 = fx_mul(w2, delta_t);
    let l2 = rk_l(am, dm, pm, pe, delta_t, fx_add(delta_n, fx_divk(k1, 2)), w2);

    let w3 = fx_add(delta_w, fx_divk(l2, 2));
    let k3 = fx_mul(w3, delta_t);
    let l3 = rk_l(am, dm, pm, pe, delta_t, fx_add(delta_n, fx_divk(k2, 2)), w3);

    let w4 = fx_add(delta_w, l3);
    let k4 = fx_mul(w4, delta_t);
    let l4 = rk_l(am, dm, pm, pe, delta_t, fx_add(delta_n, k3), w4);

    let dl = fx_divk(fx_add(fx_add(fx_add(l1, fx_add(l2, l2)), fx_add(l3, l3)), l4), 6);
    let dk = fx_divk(fx_add(fx_add(fx_add(k1, fx_add(k2, k2)), fx_add(k3, k3)), k4), 6);

    (fx_add(delta_w, dl), fx_add(delta_n, dk))
}

} // verus!
