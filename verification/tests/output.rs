use nsim::math_util::Vector3;
use nsim::output::{diagnostics_path, output_path, trajectory_row};
use nsim::particle::{Particle, ParticleSystem};

#[test]
fn particle_file_lives_in_output_directory() {
    assert_eq!(output_path("Jupiter"), "output/Jupiter.out");
    assert_eq!(output_path("Sol"), "output/Sol.out");
    assert_eq!(output_path(""), "output/.out");
}

#[test]
fn absolute_particle_name_stays_in_output_directory() {
    assert_eq!(output_path("/tmp/probe"), "output//tmp/probe.out");
    assert!(output_path("/tmp/probe").starts_with("output/"));
}

#[test]
fn diagnostics_file_lives_in_output_directory() {
    assert_eq!(diagnostics_path(), "output/diagnostics.out");
}

#[test]
fn trajectory_row_reads_name_position_and_velocity() {
    let mut system = ParticleSystem::new();
    system.add_particle(Particle {
        name: String::from("Jupiter"),
        radius: 1.0f64.to_bits(),
        position: Vector3 {
            x: 5.0f64.to_bits(),
            y: 0.0f64.to_bits(),
            z: 0.0f64.to_bits(),
        },
        velocity: Vector3 {
            x: 0.0f64.to_bits(),
            y: 2.5f64.to_bits(),
            z: 0.0f64.to_bits(),
        },
        mass: 0.0f64.to_bits(),
    });
    let row = trajectory_row(&system, 0).unwrap();
    assert_eq!(row.name, "Jupiter");
    assert_eq!(f64::from_bits(row.position.x), 5.0);
    assert_eq!(f64::from_bits(row.velocity.y), 2.5);
    assert!(trajectory_row(&system, 1).is_none());
}
