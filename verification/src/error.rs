//! Errors reported while building a simulation.
use vstd::prelude::*;

verus! {

/// Errors reported when a simulation cannot be built.
#[derive(Debug, PartialEq, Eq, Structural)]
pub enum SimError {
    /// Simulation cannot be built without a valid integrator
    MissingIntegrator,
}

/// The human-readable description of an error.
pub open spec fn error_message(e: SimError) -> Seq<char> {
    match e {
        SimError::MissingIntegrator => "Simulation requires an integrator to be built."@,
    }
}

impl SimError {
    /// Returns the human-readable description of this error.
    pub fn message(&self) -> (msg: String)
        ensures
            msg@ == error_message(*self),
    {
        match self {
            SimError::MissingIntegrator => String::from_str(
                "Simulation requires an integrator to be built.",
            ),
        }
    }
}

} // verus!
