//! The physical scenario: an immutable set of model constants.
//!
//! Three power-curve maxima (pre-fault, during-fault, post-fault), the
//! mechanical power, nominal frequency, inertia constant, damping
//! coefficient, initial speed deviation, simulation horizon and integration
//! step. All values are fixed-point on the decimal scale of `fixed::SCALE`.

use vstd::prelude::*;
use crate::fixed::{Fx, FX_MAX};

verus! {

/// Pre-fault power maximum, 1.83333 per unit.
pub const PE1: i64 = 1_833_330_000;

/// During-fault power maximum, 1.13491 per unit.
pub const PE2: i64 = 1_134_910_000;

/// Post-fault power maximum, 1.22222 per unit.
pub const PE3: i64 = 1_222_220_000;

/// Mechanical power, 1.44 per unit.
pub const PM: i64 = 1_440_000_000;

/// Nominal frequency, 60 Hz.
pub const F: i64 = 60_000_000_000;

/// Generator inertia constant, 9.0 s.
pub const H: i64 = 9_000_000_000;

/// Damping coefficient, 0.15.
pub const D: i64 = 150_000_000;

/// Initial angular-speed deviation, 0 rad/s.
pub const DELTA_W_INI: i64 = 0;

/// Simulation horizon, 5.0 s.
pub const T_MAX: i64 = 5_000_000_000;

/// Integration step, 5e-4 s.
pub const DELTA_T: i64 = 500_000;

/// The immutable physical scenario a run is made against.
#[derive(Clone, Copy, PartialEq, Eq, Structural, Debug)]
pub struct Params {
    /// Pre-fault power maximum.
    pub pe1: Fx,
    /// During-fault power maximum.
    pub pe2: Fx,
    /// Post-fault power maximum.
    pub pe3: Fx,
    /// Mechanical power.
    pub pm: Fx,
    /// Nominal frequency in Hz.
    pub f: Fx,
    /// Inertia constant in seconds.
    pub h: Fx,
    /// Damping coefficient.
    pub d: Fx,
    /// Initial angular-speed deviation.
    pub delta_w_ini: Fx,
    /// Simulation horizon in seconds.
    pub t_max: Fx,
    /// Integration step in seconds.
    pub delta_t: Fx,
}

/// What the simulation loop needs of a scenario: a positive step, a positive
/// horizon, and room for the clock to pass the horizon without saturating.
pub open spec fn params_wf(p: Params) -> bool {
    &&& 0 < p.delta_t.v
    &&& 0 < p.t_max.v
    &&& p.t_max.v + p.delta_t.v <= FX_MAX
    &&& crate::fixed::fx_ok(p.delta_w_ini.v as int)
}

/// The scenario the study is run on.
pub fn default_params() -> (p: Params)
    ensures
        p.pe1.v == PE1,
        p.pe2.v == PE2,
        p.pe3.v == PE3,
        p.pm.v == PM,
        p.f.v == F,
        p.h.v == H,
        p.d.v == D,
        p.delta_w_ini.v == DELTA_W_INI,
        p.t_max.v == T_MAX,
        p.delta_t.v == DELTA_T,
        params_wf(p),
{
    Params {
        pe1: Fx { v: PE1 },
        pe2: Fx { v: PE2 },
        pe3: Fx { v: PE3 },
        pm: Fx { v: PM },
        f: Fx { v: F },
        h: Fx { v: H },
        d: Fx { v: D },
        delta_w_ini: Fx { v: DELTA_W_INI },
        t_max: Fx { v: T_MAX },
        delta_t: Fx { v: DELTA_T },
    }
}

} // verus!
