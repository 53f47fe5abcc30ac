use flight_dynamics::policy::{limit_dt, rule, settle_climb, wrap_coordinate, Limits, Ruling, Wrap};
use flight_dynamics::scalar::Scalar;

fn s(v: f32) -> Scalar {
    Scalar::from_bits(v.to_bits())
}

fn num(x: Scalar) -> f32 {
    f32::from_bits(x.to_bits())
}

fn world() -> Limits {
    Limits {
        floor: s(1.0),
        ceiling: Some(s(49.0)),
        wrap: Some(Wrap { bound: s(500.0), span: s(1000.0) }),
    }
}

#[test]
fn floor_stops_a_sinking_body() {
    let r = settle_climb(s(1.0), s(-5.0), s(1.0), Some(s(49.0)));
    assert_eq!(num(r), 0.0);
    assert_eq!(r, Scalar::zero());
    assert_eq!(num(settle_climb(s(0.5), s(-0.001), s(1.0), None)), 0.0);
}

#[test]
fn floor_lets_a_rising_body_go() {
    assert_eq!(num(settle_climb(s(1.0), s(5.0), s(1.0), Some(s(49.0)))), 5.0);
    assert_eq!(settle_climb(s(1.0), s(0.0), s(1.0), None), s(0.0));
    assert_eq!(settle_climb(s(1.0), s(-0.0), s(1.0), None), s(-0.0));
}

#[test]
fn above_the_floor_a_body_may_sink() {
    assert_eq!(num(settle_climb(s(1.001), s(-5.0), s(1.0), Some(s(49.0)))), -5.0);
    assert_eq!(num(settle_climb(s(20.0), s(-50.0), s(1.0), None)), -50.0);
}

#[test]
fn ceiling_stops_a_rising_body() {
    assert_eq!(num(settle_climb(s(49.0), s(3.0), s(1.0), Some(s(49.0)))), 0.0);
    assert_eq!(num(settle_climb(s(60.0), s(3.0), s(1.0), Some(s(49.0)))), 0.0);
    assert_eq!(num(settle_climb(s(49.0), s(-3.0), s(1.0), Some(s(49.0)))), -3.0);
    assert_eq!(num(settle_climb(s(48.9), s(3.0), s(1.0), Some(s(49.0)))), 3.0);
}

#[test]
fn without_a_ceiling_a_body_rises_freely() {
    assert_eq!(num(settle_climb(s(1000.0), s(3.0), s(1.0), None)), 3.0);
}

#[test]
fn a_nan_is_left_alone() {
    let nan = s(f32::NAN);
    assert_eq!(settle_climb(s(0.0), nan, s(1.0), Some(s(49.0))), nan);
    assert_eq!(num(settle_climb(nan, s(-5.0), s(1.0), Some(s(49.0)))), -5.0);
}

#[test]
fn wrap_at_the_upper_bound_moves_down_by_the_span() {
    let w = Wrap { bound: s(500.0), span: s(1000.0) };
    assert_eq!(wrap_coordinate(s(500.0), w).map(num), Some(-1000.0));
    assert_eq!(wrap_coordinate(s(730.5), w).map(num), Some(-1000.0));
    assert_eq!(num(s(500.0)) + wrap_coordinate(s(500.0), w).map(num).unwrap(), -500.0);
}

#[test]
fn wrap_at_the_lower_bound_moves_up_by_the_span() {
    let w = Wrap { bound: s(500.0), span: s(1000.0) };
    assert_eq!(wrap_coordinate(s(-500.0), w).map(num), Some(1000.0));
    assert_eq!(wrap_coordinate(s(-500.1), w).map(num), Some(1000.0));
}

#[test]
fn inside_the_bounds_nothing_wraps() {
    let w = Wrap { bound: s(500.0), span: s(1000.0) };
    assert_eq!(wrap_coordinate(s(0.0), w), None);
    assert_eq!(wrap_coordinate(s(499.99), w), None);
    assert_eq!(wrap_coordinate(s(-499.99), w), None);
    assert_eq!(wrap_coordinate(s(f32::NAN), w), None);
}

#[test]
fn rule_applies_every_rule() {
    let r = rule(s(500.0), s(1.0), s(-620.0), s(-5.0), world());
    assert_eq!(
        r,
        Ruling { climb: s(0.0), shift_x: Some(s(-1000.0)), shift_z: Some(s(1000.0)) }
    );
    let r = rule(s(10.0), s(20.0), s(-20.0), s(-5.0), world());
    assert_eq!(r, Ruling { climb: s(-5.0), shift_x: None, shift_z: None });
}

#[test]
fn rule_without_wrap_never_shifts() {
    let limits = Limits { floor: s(1.0), ceiling: None, wrap: None };
    let r = rule(s(9000.0), s(100.0), s(-9000.0), s(4.0), limits);
    assert_eq!(r, Ruling { climb: s(4.0), shift_x: None, shift_z: None });
}

#[test]
fn limit_dt_cuts_a_long_step() {
    assert_eq!(num(limit_dt(s(0.5), Some(s(0.05)))), 0.05);
    assert_eq!(num(limit_dt(s(0.016), Some(s(0.05)))), 0.016);
    assert_eq!(num(limit_dt(s(0.05), Some(s(0.05)))), 0.05);
    assert_eq!(num(limit_dt(s(7.0), None)), 7.0);
}

#[test]
fn a_body_at_rest_inside_the_bounds_is_left_alone() {
    for climb in [0.0f32, -0.0] {
        for altitude in [-3.0f32, 1.0, 20.0, 49.0, 80.0] {
            let r = rule(s(12.0), s(altitude), s(-499.0), s(climb), world());
            assert_eq!(r, Ruling { climb: s(climb), shift_x: None, shift_z: None });
        }
    }
}

#[test]
fn a_body_at_rest_on_the_bound_still_wraps() {
    let r = rule(s(500.0), s(20.0), s(0.0), s(0.0), world());
    assert_eq!(r, Ruling { climb: s(0.0), shift_x: Some(s(-1000.0)), shift_z: None });
}
