//! Critical switching times for a single-machine-infinite-bus transient
//! stability study, by the equal-area criterion.
//!
//! The crate holds the numerical core: a fixed-step fourth-order Runge-Kutta
//! integrator for the swing equation, a fault-stage simulator that switches
//! between three electrical-power regimes at externally chosen instants, a
//! composite Simpson evaluator for the three signed energy areas, and the
//! scalar objective that an external search engine minimises. All real-number
//! work is done in saturating fixed-point arithmetic on a decimal scale, so
//! that every function is pinned to an exact integer-valued specification.

pub mod area;
pub mod fixed;
pub mod objective_function;
pub mod params;
pub mod runge_kutta;
pub mod sim_per_time;
pub mod trig;

pub use area::{calcular_areas_melhorado, encontrar_intersecoes, integrar_simpson, NUM_PONTOS};
pub use fixed::{Fx, FX_MAX, SCALE};
pub use objective_function::{
    fitness_from_areas, objective_function, Fitness, PENALIDADE, QUARTIC_CAP,
};
pub use params::{default_params, Params};
pub use runge_kutta::runge_kutta_with_d;
pub use sim_per_time::{sim_pet_time, Regime, SimOutput};
pub use trig::{asin_fx, sin_fx, HALF_PI_FX, PI_FX, TWO_PI_FX};
