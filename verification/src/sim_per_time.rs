//! The fault-stage simulator: a fixed-step time-domain run of the swing
//! equation across three electrical-power regimes.
//!
//! The run starts in the pre-fault regime and switches to the during-fault
//! regime at `t = 0` (the fault is modeled as instantaneous at simulation
//! start). Once the clock reaches `tab` while the fault regime is active, the
//! current angle is latched as `delta_cra` and the post-fault regime takes
//! over; once the clock reaches `tr` while the post-fault regime is active,
//! the angle is latched as `delta_crr` and the pre-fault regime returns.
//! Each transition fires at most once. Transition checks compare the
//! fixed-step clock to the thresholds, so the latched angles carry a
//! step-alignment bias: no interpolation to the exact threshold instant is
//! attempted. A threshold never reached within the horizon leaves its latched
//! angle at the sentinel value zero.
//!
//! The loop is pinned exactly by the step-indexed `spec_sim_at`; determinism
//! of the whole trajectory follows and is stated as `lemma_sim_deterministic`.

use vstd::prelude::*;
use crate::fixed::{Fx, fx_ok, fx_add};
use crate::params::{Params, params_wf};
use crate::runge_kutta::{runge_kutta_with_d, spec_rk_step};

verus! {

/// The electrical-power regime active at a simulated instant.
#[derive(Clone, Copy, PartialEq, Eq, Structural, Debug)]
pub enum Regime {
    /// The healthy network, power maximum `pe1`.
    PreFault,
    /// The faulted network, power maximum `pe2`.
    Fault,
    /// The network after fault clearing, power maximum `pe3`.
    PostFault,
}

/// The state of the simulation loop at the top of an iteration.
pub struct SimState {
    /// Rotor angle.
    pub dn: int,
    /// Angular-speed deviation.
    pub dw: int,
    /// Active power regime.
    pub regime: Regime,
    /// Whether the instantaneous fault at `t = 0` has been applied.
    pub init_done: bool,
    /// Whether the clearing transition has fired.
    pub tab_done: bool,
    /// Whether the reclosing transition has fired.
    pub tr_done: bool,
    /// Latched clearing angle, zero until the clearing transition fires.
    pub cra: int,
    /// Latched reclosing angle, zero until the reclosing transition fires.
    pub crr: int,
}

/// The power maximum of the active regime.
pub open spec fn spec_active_pe(p: Params, r: Regime) -> int {
    match r {
        Regime::PreFault => p.pe1.v as int,
        Regime::Fault => p.pe2.v as int,
        Regime::PostFault => p.pe3.v as int,
    }
}

/// The loop state before the first iteration.
pub open spec fn spec_sim_init(dw0: int, dn0: int) -> SimState {
    SimState {
        dn: dn0,
        dw: dw0,
        regime: Regime::PreFault,
        init_done: false,
        tab_done: false,
        tr_done: false,
        cra: 0,
        crr: 0,
    }
}

/// The at-most-one regime transition taken at clock value `t`, checked
/// before the integrator update of that step.
pub open spec fn spec_transition(st: SimState, t: int, tab: int, tr: int) -> SimState {
    if t == 0 && !st.init_done {
        SimState { regime: Regime::Fault, init_done: true, ..st }
    } else if st.regime == Regime::Fault && t >= tab && !st.tab_done {
        SimState { cra: st.dn, regime: Regime::PostFault, tab_done: true, ..st }
    } else if st.regime == Regime::PostFault && t >= tr && !st.tr_done {
        SimState { crr: st.dn, regime: Regime::PreFault, tr_done: true, ..st }
    } else {
        st
    }
}

/// One loop iteration at clock value `t`: the transition check, then one
/// Runge-Kutta step under the regime that is active after it.
pub open spec fn spec_sim_step(p: Params, tab: int, tr: int, st: SimState, t: int) -> SimState {
    let st1 = spec_transition(st, t, tab, tr);
    let rk = spec_rk_step(
        p.pm.v as int,
        p.h.v as int,
        p.f.v as int,
        p.d.v as int,
        spec_active_pe(p, st1.regime),
        p.delta_t.v as int,
        st1.dw,
        st1.dn,
    );
    SimState { dw: rk.0, dn: rk.1, ..st1 }
}

/// The loop state at the top of iteration `i` (the clock then reads
/// `i * delta_t`).
pub open spec fn spec_sim_at(p: Params, tab: Fx, tr: Fx, dw0: Fx, dn0: Fx, i: nat) -> SimState
    decreases i,
{
    if i == 0 {
        spec_sim_init(dw0.v as int, dn0.v as int)
    } else {
        spec_sim_step(
            p,
            tab.v as int,
            tr.v as int,
            spec_sim_at(p, tab, tr, dw0, dn0, (i - 1) as nat),
            (i - 1) * p.delta_t.v,
        )
    }
}

/// How many iterations the loop makes: the smallest `i` with
/// `i * delta_t >= t_max`, which for a positive horizon is the rounded-up
/// quotient of the two.
pub open spec fn spec_num_steps(p: Params) -> nat
    recommends
        params_wf(p),
{
    ((p.t_max.v + p.delta_t.v - 1) / (p.delta_t.v as int)) as nat
}

/// The step count is exactly the threshold at which the clock passes the
/// horizon: `i * delta_t >= t_max` holds if and only if `i` has reached it.
pub proof fn lemma_num_steps(p: Params, i: nat)
    requires
        params_wf(p),
    ensures
        (i * p.delta_t.v >= p.t_max.v) <==> (i >= spec_num_steps(p)),
        spec_num_steps(p) >= 1,
{
    let dt = p.delta_t.v as int;
    let tm = p.t_max.v as int;
    let n = (tm + dt - 1) / dt;
    vstd::arithmetic::div_mod::lemma_fundamental_div_mod(tm + dt - 1, dt);
    vstd::arithmetic::div_mod::lemma_mod_division_less_than_divisor(tm + dt - 1, dt);
    let r = (tm + dt - 1) % dt;
    assert(tm + dt - 1 == dt * n + r);
    assert(n * dt >= tm) by (nonlinear_arith)
        requires
            tm + dt - 1 == dt * n + r,
            0 <= r < dt,
    ;
    assert(n >= 1) by (nonlinear_arith)
        requires
            n * dt >= tm,
            tm >= 1,
            dt >= 1,
    ;
    if i >= n {
        assert(i * dt >= n * dt) by (nonlinear_arith)
            requires
                i >= n,
                dt >= 1,
        ;
    } else {
        assert(i * dt <= (n - 1) * dt) by (nonlinear_arith)
            requires
                i <= n - 1,
                dt >= 1,
        ;
        assert((n - 1) * dt == n * dt - dt) by (nonlinear_arith);
        assert(n * dt - dt < tm) by (nonlinear_arith)
            requires
                tm + dt - 1 == dt * n + r,
                0 <= r < dt,
        ;
    }
}

/// Every component of the step-indexed state stays a valid fixed-point
/// value: the integrator saturates, the latches copy an angle or keep the
/// zero sentinel.
pub proof fn lemma_sim_state_bounds(p: Params, tab: Fx, tr: Fx, dw0: Fx, dn0: Fx, i: nat)
    requires
        fx_ok(dw0.v as int),
        fx_ok(dn0.v as int),
    ensures
        fx_ok(spec_sim_at(p, tab, tr, dw0, dn0, i).dn),
        fx_ok(spec_sim_at(p, tab, tr, dw0, dn0, i).dw),
        fx_ok(spec_sim_at(p, tab, tr, dw0, dn0, i).cra),
        fx_ok(spec_sim_at(p, tab, tr, dw0, dn0, i).crr),
    decreases i,
{
    if i > 0 {
        lemma_sim_state_bounds(p, tab, tr, dw0, dn0, (i - 1) as nat);
        reveal(spec_rk_step);
    }
}

/// Until a transition fires, its latched angle keeps the zero sentinel.
pub proof fn lemma_latch_sentinel(p: Params, tab: Fx, tr: Fx, dw0: Fx, dn0: Fx, i: nat)
    ensures
        !spec_sim_at(p, tab, tr, dw0, dn0, i).tab_done ==> spec_sim_at(p, tab, tr, dw0, dn0,
            i).cra == 0,
        !spec_sim_at(p, tab, tr, dw0, dn0, i).tr_done ==> spec_sim_at(p, tab, tr, dw0, dn0,
            i).crr == 0,
    decreases i,
{
    if i > 0 {
        lemma_latch_sentinel(p, tab, tr, dw0, dn0, (i - 1) as nat);
    }
}

/// Each transition fires at most once per run: once latched, a transition
/// angle never changes again, however often the clock passes its threshold.
pub proof fn lemma_latch_once(p: Params, tab: Fx, tr: Fx, dw0: Fx, dn0: Fx, i: nat, j: nat)
    requires
        i <= j,
    ensures
        spec_sim_at(p, tab, tr, dw0, dn0, i).tab_done ==> {
            &&& spec_sim_at(p, tab, tr, dw0, dn0, j).tab_done
            &&& spec_sim_at(p, tab, tr, dw0, dn0, j).cra == spec_sim_at(p, tab, tr, dw0, dn0,
                i).cra
        },
        spec_sim_at(p, tab, tr, dw0, dn0, i).tr_done ==> {
            &&& spec_sim_at(p, tab, tr, dw0, dn0, j).tr_done
            &&& spec_sim_at(p, tab, tr, dw0, dn0, j).crr == spec_sim_at(p, tab, tr, dw0, dn0,
                i).crr
        },
    decreases j,
{
    if j > i {
        lemma_latch_once(p, tab, tr, dw0, dn0, i, (j - 1) as nat);
    }
}

/// The trajectory and latched angles of one simulation run.
pub struct SimOutput {
    /// Clock value of each sample.
    pub tempos: Vec<Fx>,
    /// Rotor angle of each sample.
    pub angulos: Vec<Fx>,
    /// Speed deviation of each sample.
    pub velocidades: Vec<Fx>,
    /// Latched clearing angle (sentinel zero if never latched).
    pub delta_cra: Fx,
    /// Latched reclosing angle (sentinel zero if never latched).
    pub delta_crr: Fx,
}

/// Everything the simulator promises of its output: three equally long
/// sample sequences, one entry per step plus the initial sample, each pinned
/// to the step-indexed state, and the two latched angles of the final state.
pub open spec fn sim_post(r: SimOutput, p: Params, tab: Fx, tr: Fx, dw0: Fx, dn0: Fx) -> bool {
    let n = spec_num_steps(p);
    &&& r.tempos@.len() == n + 1
    &&& r.angulos@.len() == n + 1
    &&& r.velocidades@.len() == n + 1
    &&& forall|j: int|
        0 <= j <= n ==> (#[trigger] r.tempos@[j]).v == j * p.delta_t.v
    &&& forall|j: int|
        0 <= j <= n ==> (#[trigger] r.angulos@[j]).v == spec_sim_at(p, tab, tr, dw0, dn0, j as nat).dn
    &&& forall|j: int|
        0 <= j <= n ==> (#[trigger] r.velocidades@[j]).v == spec_sim_at(p, tab, tr, dw0, dn0, j as nat).dw
    &&& r.delta_cra.v == spec_sim_at(p, tab, tr, dw0, dn0, n).cra
    &&& r.delta_crr.v == spec_sim_at(p, tab, tr, dw0, dn0, n).crr
}

/// Whether the executable loop variables agree with a spec-level state.
pub open spec fn sim_vars_match(
    st: SimState,
    dn: Fx,
    dw: Fx,
    regime: Regime,
    init_done: bool,
    tab_done: bool,
    tr_done: bool,
    cra: Fx,
    crr: Fx,
) -> bool {
    &&& st.dn == dn.v
    &&& st.dw == dw.v
    &&& st.regime == regime
    &&& st.init_done == init_done
    &&& st.tab_done == tab_done
    &&& st.tr_done == tr_done
    &&& st.cra == cra.v
    &&& st.crr == crr.v
}

/// Run the fault-stage simulation: from the initial state, advance the
/// rotor by fixed Runge-Kutta steps until the clock reaches the horizon,
/// switching regimes at the supplied thresholds and recording every sample.
#[verifier::rlimit(100)]
pub fn sim_pet_time(p: &Params, tab: Fx, tr: Fx, delta_w_ini: Fx, delta_n_ini: Fx) -> (r:
    SimOutput)
    requires
        params_wf(*p),
    ensures
        sim_post(r, *p, tab, tr, delta_w_ini, delta_n_ini),
{
    let mut tempos: Vec<Fx> = Vec::new();
    let mut angulos: Vec<Fx> = Vec::new();
    let mut velocidades: Vec<Fx> = Vec::new();
    tempos.push(Fx { v: 0 });
    angulos.push(delta_n_ini);
    velocidades.push(delta_w_ini);

    let mut dn = delta_n_ini;
    let mut dw = delta_w_ini;
    let mut t = Fx { v: 0 };
    let mut regime = Regime::PreFault;
    let mut init_done = false;
    let mut tab_done = false;
    let mut tr_done = false;
    let mut cra = Fx { v: 0 };
    let mut crr = Fx { v: 0 };
    let ghost mut i: nat = 0;

    proof {
        lemma_num_steps(*p, 0);
    }

    while t.v < p.t_max.v
        invariant
            params_wf(*p),
            t.v == i * p.delta_t.v,
            i <= spec_num_steps(*p),
            0 <= t.v,
            sim_vars_match(
                spec_sim_at(*p, tab, tr, delta_w_ini, delta_n_ini, i),
                dn,
                dw,
                regime,
                init_done,
                tab_done,
                tr_done,
                cra,
                crr,
            ),
            tempos@.len() == i + 1,
            angulos@.len() == i + 1,
            velocidades@.len() == i + 1,
            forall|j: int| 0 <= j <= i ==> (#[trigger] tempos@[j]).v == j * p.delta_t.v,
            forall|j: int|
                0 <= j <= i ==> (#[trigger] angulos@[j]).v == spec_sim_at(
                    *p,
                    tab,
                    tr,
                    delta_w_ini,
                    delta_n_ini,
                    j as nat,
                ).dn,
            forall|j: int|
                0 <= j <= i ==> (#[trigger] velocidades@[j]).v == spec_sim_at(
                    *p,
                    tab,
                    tr,
                    delta_w_ini,
                    delta_n_ini,
                    j as nat,
                ).dw,
        decreases spec_num_steps(*p) - i,
    {
        proof {
            lemma_num_steps(*p, i);
        }
        if t.v == 0 && !init_done {
            regime = Regime::Fault;
            init_done = true;
        } else if regime == Regime::Fault && t.v >= tab.v && !tab_done {
            cra = dn;
            regime = Regime::PostFault;
            tab_done = true;
        } else if regime == Regime::PostFault && t.v >= tr.v && !tr_done {
            crr = dn;
            regime = Regime::PreFault;
            tr_done = true;
        }
        let pe = match regime {
            Regime::PreFault => p.pe1,
            Regime::Fault => p.pe2,
            Regime::PostFault => p.pe3,
        };
        let rk = runge_kutta_with_d(dw, dn, pe, p.delta_t, p.d, p.pm, p.h, p.f);
        dw = rk.0;
        dn = rk.1;
        let t_old = t;
        t = fx_add(t, p.delta_t);
        proof {
            assert((i + 1) * p.delta_t.v == i * p.delta_t.v + p.delta_t.v) by (nonlinear_arith);
            assert(t.v == t_old.v + p.delta_t.v);
            i = i + 1;
            assert(spec_sim_at(*p, tab, tr, delta_w_ini, delta_n_ini, i) == spec_sim_step(
                *p,
                tab.v as int,
                tr.v as int,
                spec_sim_at(*p, tab, tr, delta_w_ini, delta_n_ini, (i - 1) as nat),
                (i - 1) * p.delta_t.v,
            ));
            lemma_num_steps(*p, i);
        }
        tempos.push(t);
        angulos.push(dn);
        velocidades.push(dw);
    }
    proof {
        lemma_num_steps(*p, i);
        assert(i == spec_num_steps(*p));
    }
    SimOutput { tempos, angulos, velocidades, delta_cra: cra, delta_crr: crr }
}

/// Determinism: two outputs that the simulator's contract admits for the
/// same scenario and thresholds are identical, sample for sample.
pub proof fn lemma_sim_deterministic(
    r1: SimOutput,
    r2: SimOutput,
    p: Params,
    tab: Fx,
    tr: Fx,
    dw0: Fx,
    dn0: Fx,
)
    requires
        params_wf(p),
        sim_post(r1, p, tab, tr, dw0, dn0),
        sim_post(r2, p, tab, tr, dw0, dn0),
    ensures
        r1.tempos@ == r2.tempos@,
        r1.angulos@ == r2.angulos@,
        r1.velocidades@ == r2.velocidades@,
        r1.delta_cra == r2.delta_cra,
        r1.delta_crr == r2.delta_crr,
{
    let n = spec_num_steps(p);
    assert forall|j: int| 0 <= j < r1.tempos@.len() implies r1.tempos@[j] == r2.tempos@[j] by {
        assert(r1.tempos@[j].v == j * p.delta_t.v);
        assert(r2.tempos@[j].v == j * p.delta_t.v);
    }
    assert(r1.tempos@ =~= r2.tempos@);
    assert forall|j: int| 0 <= j < r1.angulos@.len() implies r1.angulos@[j] == r2.angulos@[j] by {
        assert(r1.angulos@[j].v == spec_sim_at(p, tab, tr, dw0, dn0, j as nat).dn);
        assert(r2.angulos@[j].v == spec_sim_at(p, tab, tr, dw0, dn0, j as nat).dn);
    }
    assert(r1.angulos@ =~= r2.angulos@);
    assert forall|j: int|
        0 <= j < r1.velocidades@.len() implies r1.velocidades@[j] == r2.velocidades@[j] by {
        assert(r1.velocidades@[j].v == spec_sim_at(p, tab, tr, dw0, dn0, j as nat).dw);
        assert(r2.velocidades@[j].v == spec_sim_at(p, tab, tr, dw0, dn0, j as nat).dw);
    }
    assert(r1.velocidades@ =~= r2.velocidades@);
}

} // verus!
