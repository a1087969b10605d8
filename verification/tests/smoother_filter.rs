use ball_in_a_box::fx::Fx;
use ball_in_a_box::smoother::{apply_quick_turn, smooth_vec2_critically_damped};
use ball_in_a_box::vec2::Vec2;

fn dt() -> Fx {
    Fx { raw: 16_667 }
}

#[test]
fn zero_smoothness_bypasses_the_filter() {
    let mut velocity = Vec2::zero();
    let current = Vec2::new(Fx { raw: 0 }, Fx { raw: 0 });
    let target = Vec2::new(Fx::from_units(5), Fx::from_units(-10));
    let out = smooth_vec2_critically_damped(current, target, &mut velocity, Fx { raw: 0 }, dt());
    assert_eq!(out, target);
    // delta / dt: 5 units over 0.016667 s is 299993.4.. units/s, truncated.
    assert_eq!(velocity.x.raw, 5_000_000i64 * 1_000_000 / 16_667);
    assert_eq!(velocity.y.raw, -(10_000_000i64 * 1_000_000 / 16_667));
}

#[test]
fn zero_smoothness_and_zero_dt_keep_the_velocity() {
    let mut velocity = Vec2::new(Fx { raw: 123 }, Fx { raw: -7 });
    let target = Vec2::new(Fx::from_units(1), Fx::from_units(2));
    let out = smooth_vec2_critically_damped(
        Vec2::zero(),
        target,
        &mut velocity,
        Fx { raw: 0 },
        Fx { raw: 0 },
    );
    assert_eq!(out, target);
    assert_eq!(velocity.x.raw, 123);
    assert_eq!(velocity.y.raw, -7);
}

#[test]
fn one_filtered_call_matches_the_damped_formula() {
    // smoothness 0.04, one sixtieth of a second, target one unit to the
    // left: omega = 50, x = 0.83335, and the rational decay factor gives
    // exactly these raw counts.
    let mut velocity = Vec2::zero();
    let current = Vec2::zero();
    let target = Vec2::new(Fx { raw: -1_000_000 }, Fx { raw: 0 });
    let out = smooth_vec2_critically_damped(current, target, &mut velocity, Fx { raw: 40_000 }, dt());
    assert_eq!(velocity.x.raw, -18_095_070);
    assert_eq!(out.x.raw, -203_826);
    assert_eq!(velocity.y.raw, 0);
    assert_eq!(out.y.raw, 0);
}

#[test]
fn constant_zero_delta_settles_the_velocity_to_exactly_zero() {
    // Feeding the filter a run of zero deltas must bring the internal
    // velocity to exactly zero, not merely near it.
    let mut velocity = Vec2::new(Fx { raw: 1_000 }, Fx { raw: -250 });
    let at_rest = Vec2::new(Fx::from_units(42), Fx::from_units(17));
    let mut settled_after = 0usize;
    for round in 0..20 {
        if velocity.x.raw == 0 && velocity.y.raw == 0 {
            settled_after = round;
            break;
        }
        let out = smooth_vec2_critically_damped(
            at_rest,
            at_rest,
            &mut velocity,
            Fx { raw: 40_000 },
            dt(),
        );
        // While settling, the smoothed value stays pinned near the target.
        assert!((out.x.raw - at_rest.x.raw).abs() <= 1_000);
        assert!((out.y.raw - at_rest.y.raw).abs() <= 1_000);
    }
    assert_eq!(velocity.x.raw, 0);
    assert_eq!(velocity.y.raw, 0);
    assert!(settled_after > 0 && settled_after <= 6);
    // Once at rest, a further call keeps it at exactly zero.
    let out = smooth_vec2_critically_damped(at_rest, at_rest, &mut velocity, Fx { raw: 40_000 }, dt());
    assert_eq!(velocity.x.raw, 0);
    assert_eq!(velocity.y.raw, 0);
    assert_eq!(out.x.raw, at_rest.x.raw);
    assert_eq!(out.y.raw, at_rest.y.raw);
}

#[test]
fn quick_turn_zeroes_velocity_against_a_reversed_drag() {
    let velocity = Vec2::new(Fx { raw: -500_000 }, Fx { raw: 300_000 });
    let mouse = Vec2::new(Fx::from_units(10), Fx::from_units(-10));
    let window = Vec2::new(Fx::from_units(5), Fx::from_units(-5));
    // Cursor is to the right of the window but the filter still points
    // left: the leftward component is dropped. On y the cursor is above
    // (more negative) while the filter points down: dropped as well.
    let adjusted = apply_quick_turn(velocity, mouse, window);
    assert_eq!(adjusted.x.raw, 0);
    assert_eq!(adjusted.y.raw, 0);
    // A drag in the velocity's own direction is untouched.
    let keeping = apply_quick_turn(
        Vec2::new(Fx { raw: 500_000 }, Fx { raw: -300_000 }),
        mouse,
        window,
    );
    assert_eq!(keeping.x.raw, 500_000);
    assert_eq!(keeping.y.raw, -300_000);
}
