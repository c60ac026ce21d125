use nsim::math_util::Vector3;
use nsim::particle::{Particle, ParticleSystem, ParticleSystemBuilder};

fn particle_with_mass(mass: f64) -> Particle {
    Particle {
        name: String::new(),
        radius: 0.0f64.to_bits(),
        position: Vector3::default(),
        velocity: Vector3::default(),
        mass: mass.to_bits(),
    }
}

fn named(name: &str, mass: f64, x: f64) -> Particle {
    Particle {
        name: String::from(name),
        radius: 1.5f64.to_bits(),
        position: Vector3 {
            x: x.to_bits(),
            y: 0.0f64.to_bits(),
            z: 0.0f64.to_bits(),
        },
        velocity: Vector3 {
            x: 0.0f64.to_bits(),
            y: (2.0 * x).to_bits(),
            z: 0.0f64.to_bits(),
        },
        mass: mass.to_bits(),
    }
}

fn names(system: &ParticleSystem) -> Vec<String> {
    (0..system.particle_count())
        .map(|i| system.catalog().get_particle_name(i).unwrap().clone())
        .collect()
}

#[test]
fn builder_places_massive_particles_first() {
    let mut builder = ParticleSystem::builder();
    builder.add_particle(particle_with_mass(0.0));
    builder.add_particle(particle_with_mass(2.0));
    builder.add_particle(particle_with_mass(0.0));
    builder.add_particle(particle_with_mass(1.0));

    let system = builder.build();

    assert_eq!(system.particle_count(), 4);
    assert_eq!(system.state().massive_count(), 2);
    assert_eq!(
        system.state().masses(),
        &[
            2.0f64.to_bits(),
            1.0f64.to_bits(),
            0.0f64.to_bits(),
            0.0f64.to_bits()
        ]
    );
}

#[test]
fn builder_keeps_insertion_ids_and_order_within_categories() {
    let mut builder = ParticleSystemBuilder::default();
    builder.add_particle(named("a", 0.0, 1.0));
    builder.add_particle(named("b", 3.0, 2.0));
    builder.add_particle(named("c", 0.0, 3.0));
    builder.add_particle(named("d", 4.0, 4.0));
    builder.add_particle(named("e", 5.0, 5.0));

    let system = builder.build();

    assert_eq!(names(&system), vec!["b", "d", "e", "a", "c"]);
    assert_eq!(system.catalog().ids(), &[1, 3, 4, 0, 2]);
    assert_eq!(system.state().massive_count(), 3);
    assert_eq!(system.state().particle_count(), 5);
    let positions = system.state().positions();
    let velocities = system.state().velocities();
    assert_eq!(positions.len(), 5);
    assert_eq!(velocities.len(), 5);
    assert_eq!(f64::from_bits(positions.vector_at(0).x), 2.0);
    assert_eq!(f64::from_bits(velocities.vector_at(0).y), 4.0);
    assert_eq!(f64::from_bits(positions.vector_at(3).x), 1.0);
    assert_eq!(f64::from_bits(velocities.vector_at(4).y), 6.0);
}

#[test]
fn negative_zero_mass_is_massless_and_nan_mass_is_massive() {
    let mut builder = ParticleSystem::builder();
    builder.add_particle(named("neg_zero", -0.0, 1.0));
    builder.add_particle(named("nan", f64::NAN, 2.0));
    builder.add_particle(named("tiny", f64::MIN_POSITIVE, 3.0));

    let system = builder.build();

    assert_eq!(names(&system), vec!["nan", "tiny", "neg_zero"]);
    assert_eq!(system.state().massive_count(), 2);
}

#[test]
fn empty_builder_builds_empty_system() {
    let system = ParticleSystem::builder().build();
    assert_eq!(system.particle_count(), 0);
    assert_eq!(system.state().massive_count(), 0);
    assert!(system.state().masses().is_empty());
    assert!(system.state().positions().is_empty());
}

#[test]
fn system_add_particle_inserts_massive_after_massive() {
    let mut system = ParticleSystem::new();
    system.add_particle(named("a", 0.0, 1.0));
    system.add_particle(named("b", 3.0, 2.0));
    system.add_particle(named("c", 0.0, 3.0));
    system.add_particle(named("d", 4.0, 4.0));

    assert_eq!(names(&system), vec!["b", "d", "a", "c"]);
    assert_eq!(system.catalog().ids(), &[1, 3, 0, 2]);
    assert_eq!(system.state().massive_count(), 2);
    assert_eq!(system.particle_count(), 4);
    assert_eq!(
        system.state().masses(),
        &[
            3.0f64.to_bits(),
            4.0f64.to_bits(),
            0.0f64.to_bits(),
            0.0f64.to_bits()
        ]
    );
    assert_eq!(f64::from_bits(system.state().positions().vector_at(1).x), 4.0);
    assert_eq!(f64::from_bits(system.state().velocities().vector_at(2).y), 2.0);
}

#[test]
fn building_matches_adding_one_by_one() {
    let inputs = [
        ("p0", 0.0, 1.0),
        ("p1", 1.0, 2.0),
        ("p2", 0.0, 3.0),
        ("p3", 0.0, 4.0),
        ("p4", 2.0, 5.0),
        ("p5", 7.0, 6.0),
    ];
    let mut builder = ParticleSystem::builder();
    let mut system = ParticleSystem::default();
    for (name, mass, x) in inputs {
        builder.add_particle(named(name, mass, x));
        system.add_particle(named(name, mass, x));
    }
    let built = builder.build();

    assert_eq!(names(&built), names(&system));
    assert_eq!(built.catalog().ids(), system.catalog().ids());
    assert_eq!(built.state().masses(), system.state().masses());
    assert_eq!(built.state().massive_count(), system.state().massive_count());
    assert_eq!(built.state().positions().x, system.state().positions().x);
    assert_eq!(built.state().velocities().y, system.state().velocities().y);
}

#[test]
fn catalog_name_lookup_rejects_invalid_index() {
    let mut system = ParticleSystem::new();
    system.add_particle(named("only", 1.0, 0.0));
    assert_eq!(system.catalog().get_particle_name(0).unwrap(), "only");
    assert!(system.catalog().get_particle_name(1).is_none());
}

#[test]
fn state_mut_gives_write_access_to_positions_and_velocities() {
    let mut system = ParticleSystem::new();
    system.add_particle(named("a", 1.0, 0.0));
    {
        let state = system.state_mut();
        state.positions_mut().x[0] = 9.0f64.to_bits();
        state.velocities_mut().z[0] = 8.0f64.to_bits();
        let (positions, velocities) = state.positions_and_velocities_mut();
        positions.y[0] = 7.0f64.to_bits();
        velocities.x[0] = 6.0f64.to_bits();
    }
    let (positions, velocities) = system.state().positions_and_velocities();
    assert_eq!(f64::from_bits(positions.x[0]), 9.0);
    assert_eq!(f64::from_bits(positions.y[0]), 7.0);
    assert_eq!(f64::from_bits(velocities.x[0]), 6.0);
    assert_eq!(f64::from_bits(velocities.z[0]), 8.0);
    assert_eq!(system.state().massive_count(), 1);
}

#[test]
fn cloned_system_has_same_particles_and_is_independent() {
    let mut system = ParticleSystem::new();
    system.add_particle(named("a", 0.0, 1.0));
    system.add_particle(named("b", 2.0, 2.0));
    let copy = system.clone();
    system.add_particle(named("c", 3.0, 3.0));

    assert_eq!(names(&copy), vec!["b", "a"]);
    assert_eq!(copy.catalog().ids(), &[1, 0]);
    assert_eq!(copy.state().massive_count(), 1);
    assert_eq!(names(&system), vec!["b", "c", "a"]);
}

#[test]
fn cloned_particle_keeps_every_field() {
    let p = named("p", 2.0, 3.0);
    let q = p.clone();
    assert_eq!(q.name, "p");
    assert_eq!(q.mass, p.mass);
    assert_eq!(q.radius, p.radius);
    assert_eq!(q.position, p.position);
    assert_eq!(q.velocity, p.velocity);
}
