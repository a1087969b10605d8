use ball_in_a_box::bounce::calculate_bounce_spin;
use ball_in_a_box::fx::Fx;

fn units(u: i64) -> Fx {
    Fx::from_units(u)
}

#[test]
fn graze_on_a_positive_wall_rolls_the_ball() {
    // 120 units/s along a floor of radius 90, weight 0.65, friction 0.75:
    // the implied rolling rate is 1.333333 rad/s, the spin relaxes three
    // quarters of the way toward it, and the surface speed drops to the
    // blended spin times the radius.
    let (spin, tangential) = calculate_bounce_spin(
        units(120),
        units(0),
        units(0),
        units(90),
        Fx { raw: 650_000 },
        Fx { raw: 750_000 },
        false,
    );
    assert_eq!(spin.raw, 999_999);
    assert_eq!(tangential.raw, 61_500_060);
}

#[test]
fn inverted_wall_flips_the_sign_convention() {
    let (spin, tangential) = calculate_bounce_spin(
        units(-60),
        units(10),
        units(2),
        units(90),
        Fx { raw: 650_000 },
        Fx { raw: 750_000 },
        true,
    );
    assert_eq!(spin.raw, 916_667);
    assert_eq!(tangential.raw, -123_374_890);
}

#[test]
fn a_degenerate_radius_is_floored_not_divided_by() {
    // radius 0 would divide by zero; the floor of 0.001 units takes over.
    let (spin, tangential) = calculate_bounce_spin(
        Fx { raw: 1_000 },
        units(0),
        units(0),
        units(0),
        Fx { raw: 650_000 },
        Fx { raw: 750_000 },
        false,
    );
    // implied spin = 0.001 / 0.001 = 1 rad/s; relaxed by friction 0.75.
    assert_eq!(spin.raw, 750_000);
    // blended spin (1 - 0.4875) rescaled by the floored radius.
    assert_eq!(tangential.raw, 512);
}

#[test]
fn full_weight_and_friction_keep_the_existing_spin() {
    // weight * friction == 1 blends entirely toward the current spin, so
    // the surface velocity is spin * radius and, with friction 1, the
    // spin itself jumps to the implied rolling rate.
    let (spin, tangential) = calculate_bounce_spin(
        units(100),
        units(0),
        units(2),
        units(10),
        Fx { raw: 1_000_000 },
        Fx { raw: 1_000_000 },
        false,
    );
    assert_eq!(spin.raw, 10_000_000);
    assert_eq!(tangential.raw, 20_000_000);
}
