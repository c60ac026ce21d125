//! Integrator types.
//!
//! The time-stepping schemes are floating-point computations; this module
//! holds the integrator types, which carry no numerical state.
use vstd::prelude::*;

verus! {

/// Empty integrator used as a default or for testing; it never advances the
/// particles.
#[derive(Clone, Copy, Debug)]
pub struct NoIntegrator;

/// Second-order symplectic (kick-drift-kick) integrator using one force
/// evaluation per timestep.
#[derive(Clone, Copy, Debug)]
pub struct Leapfrog;

} // verus!
