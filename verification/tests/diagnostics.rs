use nsim::diagnostics::{DiagnosticRecord, Diagnostics};
use nsim::math_util::Vector3;

fn v(x: f64, y: f64, z: f64) -> Vector3 {
    Vector3 {
        x: x.to_bits(),
        y: y.to_bits(),
        z: z.to_bits(),
    }
}

fn sample(t: f64) -> DiagnosticRecord {
    DiagnosticRecord::new(
        t.to_bits(),
        2.0f64.to_bits(),
        3.0f64.to_bits(),
        (-4.0f64).to_bits(),
        (-1.0f64).to_bits(),
        v(1.0, 2.0, 3.0),
        v(4.0, 5.0, 6.0),
        v(7.0, 8.0, 9.0),
        v(10.0, 11.0, 12.0),
    )
}

#[test]
fn record_getters_and_values_follow_column_order() {
    let r = sample(0.5);
    assert_eq!(f64::from_bits(r.current_time()), 0.5);
    assert_eq!(f64::from_bits(r.total_mass()), 2.0);
    assert_eq!(f64::from_bits(r.kinetic_energy()), 3.0);
    assert_eq!(f64::from_bits(r.potential_energy()), -4.0);
    assert_eq!(f64::from_bits(r.total_energy()), -1.0);
    assert_eq!(r.linear_momentum(), v(1.0, 2.0, 3.0));
    assert_eq!(r.angular_momentum(), v(4.0, 5.0, 6.0));
    assert_eq!(r.center_of_mass_position(), v(7.0, 8.0, 9.0));
    assert_eq!(r.center_of_mass_velocity(), v(10.0, 11.0, 12.0));
    let values: Vec<f64> = r.values().iter().map(|b| f64::from_bits(*b)).collect();
    assert_eq!(
        values,
        vec![
            0.5, 2.0, 3.0, -4.0, -1.0, 1.0, 2.0, 3.0, 4.0, 5.0, 6.0, 7.0, 8.0, 9.0, 10.0, 11.0,
            12.0
        ]
    );
}

#[test]
fn samples_are_kept_in_recording_order() {
    let mut diagnostics = Diagnostics::default();
    assert_eq!(diagnostics.number_samples(), 0);
    assert!(diagnostics.validate_diagnostics().is_none());
    diagnostics.record(sample(0.0));
    diagnostics.record(sample(1.0));
    diagnostics.record(sample(2.0));
    assert_eq!(diagnostics.number_samples(), 3);
    assert_eq!(diagnostics.validate_diagnostics(), Some(3));
    assert_eq!(f64::from_bits(diagnostics.get_sample(1).current_time()), 1.0);
    assert_eq!(f64::from_bits(diagnostics.records()[2].current_time()), 2.0);
    assert_eq!(f64::from_bits(diagnostics.diagnostics_values_at(0)[0]), 0.0);
    let copy = diagnostics.clone();
    assert_eq!(copy.number_samples(), 3);
    assert_eq!(f64::from_bits(copy.get_sample(2).current_time()), 2.0);
}
