use flight_dynamics::markers::{last_max_coord, markers_are_clear, MarkerError};
use flight_dynamics::scalar::Scalar;

fn scalars(values: &[f32]) -> Vec<Scalar> {
    values.iter().map(|v| Scalar::from_bits(v.to_bits())).collect()
}

#[test]
fn last_max_coord_finds_the_greatest() {
    assert_eq!(last_max_coord(&scalars(&[-1.5, 2.25, 0.0])), Ok(1));
    assert_eq!(last_max_coord(&scalars(&[-1.5, -2.25, -9.0])), Ok(0));
    assert_eq!(last_max_coord(&scalars(&[4.0])), Ok(0));
    assert_eq!(last_max_coord(&scalars(&[1.0e-40, 1.0e30, f32::INFINITY, 3.0])), Ok(2));
}

#[test]
fn last_max_coord_takes_the_last_of_equals() {
    assert_eq!(last_max_coord(&scalars(&[2.0, 1.0, 2.0, -3.0])), Ok(2));
    assert_eq!(last_max_coord(&scalars(&[-1.0, 0.0, -0.0])), Ok(2));
    assert_eq!(last_max_coord(&scalars(&[-1.0, -0.0, 0.0])), Ok(2));
}

#[test]
fn last_max_coord_agrees_with_max_by() {
    let xs: Vec<f32> = vec![0.5, -3.0, 7.25, 7.25, -0.0, 1.0e-3, 7.0];
    let expected = xs
        .iter()
        .enumerate()
        .max_by(|a, b| a.1.partial_cmp(b.1).unwrap())
        .map(|(i, _)| i)
        .unwrap();
    assert_eq!(last_max_coord(&scalars(&xs)), Ok(expected));
}

#[test]
fn last_max_coord_of_nothing_is_an_error() {
    assert_eq!(last_max_coord(&vec![]), Err(MarkerError::NoPoints));
}

#[test]
fn last_max_coord_refuses_a_nan() {
    assert_eq!(last_max_coord(&scalars(&[f32::NAN])), Err(MarkerError::NotANumber));
    assert_eq!(last_max_coord(&scalars(&[1.0, f32::NAN, 2.0])), Err(MarkerError::NotANumber));
    assert_eq!(last_max_coord(&scalars(&[1.0, 2.0, -f32::NAN])), Err(MarkerError::NotANumber));
}

#[test]
fn last_max_coord_orders_negative_coordinates() {
    assert_eq!(last_max_coord(&scalars(&[-1.0, -3.0])), Ok(0));
    assert_eq!(last_max_coord(&scalars(&[-3.0, -1.0])), Ok(1));
    assert_eq!(last_max_coord(&scalars(&[-0.004, -0.002, -0.003])), Ok(1));
}

#[test]
fn last_max_coord_tells_close_coordinates_apart() {
    assert_eq!(last_max_coord(&scalars(&[3.004, 3.0, 3.001])), Ok(0));
}

#[test]
fn markers_off_the_center_are_clear() {
    let s = |v: f32| flight_dynamics::scalar::Scalar::from_bits(v.to_bits());
    assert!(markers_are_clear(s(2.0), s(3.0), s(1.0e-6)));
    assert!(markers_are_clear(s(2.0e-6), s(f32::INFINITY), s(1.0e-6)));
    assert!(markers_are_clear(s(0.5), s(0.5), s(0.0)));
}

#[test]
fn a_marker_on_the_center_is_not_clear() {
    let s = |v: f32| flight_dynamics::scalar::Scalar::from_bits(v.to_bits());
    assert!(!markers_are_clear(s(0.0), s(3.0), s(1.0e-6)));
    assert!(!markers_are_clear(s(2.0), s(0.0), s(1.0e-6)));
    assert!(!markers_are_clear(s(1.0e-6), s(3.0), s(1.0e-6)));
    assert!(!markers_are_clear(s(2.0), s(1.0e-7), s(1.0e-6)));
    assert!(!markers_are_clear(s(0.0), s(0.0), s(0.0)));
}

#[test]
fn a_distance_that_is_no_number_is_not_clear() {
    let s = |v: f32| flight_dynamics::scalar::Scalar::from_bits(v.to_bits());
    assert!(!markers_are_clear(s(f32::NAN), s(3.0), s(1.0e-6)));
    assert!(!markers_are_clear(s(2.0), s(f32::NAN), s(1.0e-6)));
    assert!(!markers_are_clear(s(2.0), s(3.0), s(f32::NAN)));
}
