//! The pure spin/tangential-velocity exchange when the ball grazes a wall.

use vstd::prelude::*;
use crate::fx::{Fx, v_add, v_sub, v_neg, v_mul, v_div, v_max, v_lerp};

verus! {

/// Raw radius floor used in the spin math, one thousandth of a unit:
/// guards the division by the radius against a degenerate ball.
pub const MIN_SPIN_RADIUS: i64 = 1_000;

/// Model of the post-bounce spin (first result of
/// [`calculate_bounce_spin`]) on raw counts.
pub open spec fn bounce_spin_rotation_v(
    ball_velocity: int,
    window_velocity: int,
    ball_rotation_velocity: int,
    ball_radius: int,
    friction: int,
    inverted: bool,
) -> int {
    let radius = v_max(ball_radius, MIN_SPIN_RADIUS as int);
    let total = if inverted {
        v_neg(v_add(ball_velocity, window_velocity))
    } else {
        v_add(ball_velocity, window_velocity)
    };
    let implied = v_div(total, radius);
    v_lerp(ball_rotation_velocity, implied, friction)
}

/// Model of the post-bounce tangential velocity (second result of
/// [`calculate_bounce_spin`]) on raw counts.
pub open spec fn bounce_spin_velocity_v(
    ball_velocity: int,
    window_velocity: int,
    ball_rotation_velocity: int,
    ball_radius: int,
    weight: int,
    friction: int,
    inverted: bool,
) -> int {
    let radius = v_max(ball_radius, MIN_SPIN_RADIUS as int);
    let total = if inverted {
        v_neg(v_add(ball_velocity, window_velocity))
    } else {
        v_add(ball_velocity, window_velocity)
    };
    let implied = v_div(total, radius);
    let middle = v_lerp(implied, ball_rotation_velocity, v_mul(weight, friction));
    let surface = if inverted {
        v_neg(v_mul(middle, radius))
    } else {
        v_mul(middle, radius)
    };
    v_sub(surface, window_velocity)
}

/// The bounce/spin exchange at a wall: blends the spin implied by the
/// total tangential motion against the ball's current spin (a heavier,
/// higher-friction ball keeps more of its own rotation), rolls the
/// blended spin back into a surface velocity, and lets the spin itself
/// relax toward pure rolling by the friction fraction.
///
/// `inverted` flips the sign convention for walls whose outward normal
/// points toward negative coordinates (ceiling, left wall).
///
/// Returns `(new_rotation_velocity, new_tangential_velocity)`.
pub fn calculate_bounce_spin(
    ball_velocity: Fx,
    window_velocity: Fx,
    ball_rotation_velocity: Fx,
    ball_radius: Fx,
    weight: Fx,
    friction: Fx,
    inverted: bool,
) -> (r: (Fx, Fx))
    ensures
        r.0.raw as int == bounce_spin_rotation_v(
            ball_velocity.raw as int,
            window_velocity.raw as int,
            ball_rotation_velocity.raw as int,
            ball_radius.raw as int,
            friction.raw as int,
            inverted,
        ),
        r.1.raw as int == bounce_spin_velocity_v(
            ball_velocity.raw as int,
            window_velocity.raw as int,
            ball_rotation_velocity.raw as int,
            ball_radius.raw as int,
            weight.raw as int,
            friction.raw as int,
            inverted,
        ),
{
    let radius: Fx = ball_radius.max(Fx { raw: MIN_SPIN_RADIUS });
    let summed: Fx = ball_velocity.add(window_velocity);
    let total: Fx = if inverted {
        summed.neg()
    } else {
        summed
    };
    let implied: Fx = total.div(radius);
    let middle: Fx = implied.lerp(ball_rotation_velocity, weight.mul(friction));
    let surface: Fx = if inverted {
        middle.mul(radius).neg()
    } else {
        middle.mul(radius)
    };
    let new_rotation: Fx = ball_rotation_velocity.lerp(implied, friction);
    (new_rotation, surface.sub(window_velocity))
}

} // verus!
