//! Force models and the reusable acceleration storage.
//!
//! The force laws themselves are floating-point computations; this module
//! holds the force types that carry no numerical parameters and the
//! acceleration buffer that every force evaluation writes into.
use vstd::prelude::*;

use crate::math_util::Vector3Series;

verus! {

/// Direct Newtonian gravitational force. Only the particles stored before a
/// system's massive count act as sources.
#[derive(Clone, Copy, Debug)]
pub struct NewtonianGravity;

/// Buffered accelerations of the particles, one vector per particle index.
pub struct ForceBuffer {
    accelerations: Vector3Series,
}

impl ForceBuffer {
    /// The stored accelerations.
    pub closed spec fn spec_accelerations(&self) -> Vector3Series {
        self.accelerations
    }

    /// Creates a zeroed acceleration buffer for `number_particles` particles.
    pub fn new(number_particles: usize) -> (b: Self)
        ensures
            b.spec_accelerations().aligned(),
            b.spec_accelerations().spec_len() == number_particles,
            b.spec_accelerations().all_components(0),
    {
        ForceBuffer { accelerations: Vector3Series::new_with_zeros(number_particles) }
    }

    /// Resets every stored acceleration component to `0.0`, keeping the
    /// number of entries.
    pub fn clear(&mut self)
        ensures
            final(self).spec_accelerations().x@.len() == old(self).spec_accelerations().x@.len(),
            final(self).spec_accelerations().y@.len() == old(self).spec_accelerations().y@.len(),
            final(self).spec_accelerations().z@.len() == old(self).spec_accelerations().z@.len(),
            final(self).spec_accelerations().all_components(0),
    {
        self.accelerations.fill(0);
    }

    /// Returns the per-particle acceleration vectors stored by the buffer.
    pub fn accelerations(&self) -> (a: &Vector3Series)
        ensures
            *a == self.spec_accelerations(),
    {
        &self.accelerations
    }

    /// Returns the per-particle acceleration vectors for a force evaluation
    /// to accumulate into.
    pub fn accelerations_mut(&mut self) -> (a: &mut Vector3Series)
        ensures
            *a == old(self).spec_accelerations(),
            final(self).spec_accelerations() == *final(a),
    {
        &mut self.accelerations
    }
}

} // verus!
