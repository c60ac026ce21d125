# nsim

A small N-body simulation. The crate under `src/` is the verified library:
particle bookkeeping (structure-of-arrays storage with massive particles
stored before massless test particles, stable IDs), component-wise vector
series, the acceleration buffer, storage of diagnostic samples, output file
naming and error messages.
Binary64 values are carried there as their bit patterns, because the library
holds no floating-point arithmetic.

`app/` is the program: force laws, integrators, diagnostic quantities, the
clock, and
file output, all of which compute with binary64 values.

Layout of `src/`:

- `particle.rs`: `Particle`, `ParticleSystem` (catalog and state),
  `ParticleSystemBuilder`, and the proofs that building and adding agree.
- `math_util/vector3.rs`: `Vector3` and `Vector3Series`.
- `force.rs`: `NewtonianGravity` and `ForceBuffer`.
- `integration.rs`: `NoIntegrator` and `Leapfrog`.
- `output.rs`: trajectory and diagnostics file paths, trajectory rows.
- `diagnostics.rs`: `DiagnosticRecord` and `Diagnostics`.
- `error.rs`: `SimError`.
