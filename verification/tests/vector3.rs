use nsim::math_util::{Vector3, Vector3Series};

fn v(x: f64, y: f64, z: f64) -> Vector3 {
    Vector3 {
        x: x.to_bits(),
        y: y.to_bits(),
        z: z.to_bits(),
    }
}

#[test]
fn new_with_zeros_has_requested_length_of_zero_vectors() {
    let series = Vector3Series::new_with_zeros(4);
    assert_eq!(series.len(), 4);
    assert!(!series.is_empty());
    for i in 0..4 {
        assert_eq!(series.vector_at(i), v(0.0, 0.0, 0.0));
    }
}

#[test]
fn with_capacity_is_empty() {
    let series = Vector3Series::with_capacity(10);
    assert_eq!(series.len(), 0);
    assert!(series.is_empty());
}

#[test]
fn push_then_vector_at_returns_pushed_value() {
    let mut series = Vector3Series::default();
    series.push(&v(1.0, 2.0, 3.0));
    series.push(&v(4.0, 5.0, 6.0));
    assert_eq!(series.len(), 2);
    assert_eq!(series.vector_at(0), v(1.0, 2.0, 3.0));
    assert_eq!(series.vector_at(1), v(4.0, 5.0, 6.0));
}

#[test]
fn insert_shifts_later_entries() {
    let mut series = Vector3Series::default();
    series.push(&v(1.0, 1.0, 1.0));
    series.push(&v(3.0, 3.0, 3.0));
    series.insert(1, &v(2.0, 2.0, 2.0));
    assert_eq!(series.len(), 3);
    assert_eq!(series.vector_at(0), v(1.0, 1.0, 1.0));
    assert_eq!(series.vector_at(1), v(2.0, 2.0, 2.0));
    assert_eq!(series.vector_at(2), v(3.0, 3.0, 3.0));
}

#[test]
fn fill_overwrites_every_component() {
    let mut series = Vector3Series::new_with_zeros(3);
    series.push(&v(1.0, 2.0, 3.0));
    series.fill(2.5f64.to_bits());
    assert_eq!(series.len(), 4);
    for i in 0..4 {
        assert_eq!(series.vector_at(i), v(2.5, 2.5, 2.5));
    }
}
