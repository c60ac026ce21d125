//! Names of the text files written for particle trajectories and system
//! diagnostics.
use vstd::prelude::*;

use crate::math_util::Vector3;
use crate::particle::ParticleSystem;

verus! {

/// The name, position and velocity recorded for the particle at
/// `particle_index` in a trajectory file.
pub struct TrajectoryRow<'a> {
    /// Particle name, also the trajectory file's stem.
    pub name: &'a String,
    /// Position `(x, y, z)`.
    pub position: Vector3,
    /// Velocity `(u, v, w)`.
    pub velocity: Vector3,
}

/// Looks up the values written for one particle in one trajectory row: its
/// name, position and velocity. Returns `None` when `particle_index` does not
/// refer to a catalog entry with matching position and velocity entries.
pub fn trajectory_row(system: &ParticleSystem, particle_index: usize) -> (row: Option<
    TrajectoryRow<'_>,
>)
    ensures
        ({
            let names = system.spec_catalog().spec_names();
            let pos = system.spec_state().spec_positions();
            let vel = system.spec_state().spec_velocities();
            let valid = particle_index < names.len() && particle_index < pos.x@.len()
                && particle_index < pos.y@.len() && particle_index < pos.z@.len()
                && particle_index < vel.x@.len() && particle_index < vel.y@.len()
                && particle_index < vel.z@.len();
            &&& valid <==> row is Some
            &&& row matches Some(r) ==> {
                &&& *r.name == names[particle_index as int]
                &&& r.position == pos.vector(particle_index as int)
                &&& r.velocity == vel.vector(particle_index as int)
            }
        }),
{
    let name = match system.catalog().get_particle_name(particle_index) {
        Some(name) => name,
        None => return None,
    };
    let state = system.state();
    let positions = state.positions();
    let velocities = state.velocities();
    if particle_index >= positions.x.len() || particle_index >= positions.y.len()
        || particle_index >= positions.z.len() || particle_index >= velocities.x.len()
        || particle_index >= velocities.y.len() || particle_index >= velocities.z.len() {
        return None;
    }
    Some(
        TrajectoryRow {
            name,
            position: positions.vector_at(particle_index),
            velocity: velocities.vector_at(particle_index),
        },
    )
}

/// Places the file `file` in the output directory: `output/<file>`. The
/// directory prefix is kept whatever `file` holds, so a name starting with
/// `/` still names a file under `output/`.
fn in_output_directory(file: &str) -> (path: String)
    ensures
        path@ == "output/"@ + file@,
{
    let mut path = String::from_str("output/");
    path.append(file);
    path
}

/// Returns the path of the trajectory file of the particle named `name`:
/// `output/<name>.out`, for every name.
pub fn output_path(name: &str) -> (path: String)
    ensures
        path@ == "output/"@ + name@ + ".out"@,
{
    let mut file = String::from_str(name);
    file.append(".out");
    in_output_directory(file.as_str())
}

/// Returns the path of the diagnostics report: `output/diagnostics.out`.
pub fn diagnostics_path() -> (path: String)
    ensures
        path@ == "output/"@ + "diagnostics.out"@,
{
    in_output_directory("diagnostics.out")
}

} // verus!
