use nsim::error::SimError;
use nsim::force::ForceBuffer;

#[test]
fn missing_integrator_message() {
    assert_eq!(
        SimError::MissingIntegrator.message(),
        "Simulation requires an integrator to be built."
    );
}

#[test]
fn force_buffer_starts_zeroed() {
    let buffer = ForceBuffer::new(3);
    let accelerations = buffer.accelerations();
    assert_eq!(accelerations.len(), 3);
    for i in 0..3 {
        assert_eq!(accelerations.x[i], 0);
        assert_eq!(accelerations.y[i], 0);
        assert_eq!(accelerations.z[i], 0);
    }
}

#[test]
fn force_buffer_clear_zeroes_accumulated_values() {
    let mut buffer = ForceBuffer::new(2);
    buffer.accelerations_mut().x[1] = 4.0f64.to_bits();
    buffer.accelerations_mut().z[0] = (-1.0f64).to_bits();
    buffer.clear();
    let accelerations = buffer.accelerations();
    assert_eq!(accelerations.len(), 2);
    assert_eq!(f64::from_bits(accelerations.x[1]), 0.0);
    assert_eq!(f64::from_bits(accelerations.z[0]), 0.0);
}
