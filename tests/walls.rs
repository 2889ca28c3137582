use ball_simulation::{earliest_wall, reflect_off_wall, wall_toward, Axis, Velocity, WallHit, WallType};

fn velocity(x: f64, y: f64) -> Velocity {
    Velocity { x: x.to_bits(), y: y.to_bits() }
}

fn speed(v: Velocity) -> f64 {
    let x = f64::from_bits(v.x);
    let y = f64::from_bits(v.y);
    (x * x + y * y).sqrt()
}

#[test]
fn moving_along_x_only_heads_for_the_positive_x_wall() {
    assert_eq!(wall_toward(Axis::X, 1.0f64.to_bits()), Some(WallType::XPositive));
    assert_eq!(wall_toward(Axis::Y, 0.0f64.to_bits()), None);
    assert_eq!(wall_toward(Axis::Y, (-0.0f64).to_bits()), None);
}

#[test]
fn wall_identity_follows_the_velocity_sign() {
    assert_eq!(wall_toward(Axis::X, (-0.3f64).to_bits()), Some(WallType::XNegative));
    assert_eq!(wall_toward(Axis::Y, 2.0f64.to_bits()), Some(WallType::YPositive));
    assert_eq!(wall_toward(Axis::Y, (-1.9472f64).to_bits()), Some(WallType::YNegative));
    assert_eq!(wall_toward(Axis::X, f64::NAN.to_bits()), None);
}

#[test]
fn wall_axes() {
    assert_eq!(WallType::XNegative.axis(), Axis::X);
    assert_eq!(WallType::XPositive.axis(), Axis::X);
    assert_eq!(WallType::YNegative.axis(), Axis::Y);
    assert_eq!(WallType::YPositive.axis(), Axis::Y);
}

#[test]
fn bottom_bounce_flips_y_only() {
    let v = velocity(-0.4566, -1.9472);
    let r = reflect_off_wall(v, WallType::YNegative);
    assert_eq!(r, velocity(-0.4566, 1.9472));
}

#[test]
fn side_bounce_flips_x_only() {
    let v = velocity(0.75, -0.25);
    assert_eq!(reflect_off_wall(v, WallType::XPositive), velocity(-0.75, -0.25));
    assert_eq!(reflect_off_wall(v, WallType::XNegative), velocity(-0.75, -0.25));
    assert_eq!(reflect_off_wall(v, WallType::YPositive), velocity(0.75, 0.25));
}

#[test]
fn wall_bounce_keeps_speed() {
    for (x, y) in [(0.3, 0.4), (-1.25, 2.5), (0.0, -3.0), (1e-3, 7.0)] {
        let v = velocity(x, y);
        for wall in [WallType::XNegative, WallType::XPositive, WallType::YNegative, WallType::YPositive] {
            assert_eq!(speed(reflect_off_wall(v, wall)), speed(v));
        }
    }
}

#[test]
fn earliest_wall_picks_the_earlier_impact() {
    let x = WallHit { time: 0.5f64.to_bits(), wall: WallType::XPositive };
    let y = WallHit { time: 0.25f64.to_bits(), wall: WallType::YNegative };
    assert_eq!(earliest_wall(Some(x), Some(y)), Some(y));
    assert_eq!(earliest_wall(Some(y), Some(x)), Some(y));
    assert_eq!(earliest_wall(Some(x), None), Some(x));
    assert_eq!(earliest_wall(None, Some(y)), Some(y));
    assert_eq!(earliest_wall(None, None), None);
}

#[test]
fn earliest_wall_prefers_x_on_a_tie() {
    let x = WallHit { time: 0.5f64.to_bits(), wall: WallType::XNegative };
    let y = WallHit { time: 0.5f64.to_bits(), wall: WallType::YPositive };
    assert_eq!(earliest_wall(Some(x), Some(y)), Some(x));
}

#[test]
fn earliest_wall_treats_signed_zeros_as_a_tie() {
    // A ball at x = width - r, y = r moving +x and -y meets both walls now.
    let x = WallHit { time: 0.0f64.to_bits(), wall: WallType::XPositive };
    let y = WallHit { time: (-0.0f64).to_bits(), wall: WallType::YNegative };
    assert_eq!(earliest_wall(Some(x), Some(y)), Some(x));
    let x = WallHit { time: (-0.0f64).to_bits(), wall: WallType::XNegative };
    let y = WallHit { time: 0.0f64.to_bits(), wall: WallType::YPositive };
    assert_eq!(earliest_wall(Some(x), Some(y)), Some(x));
}
