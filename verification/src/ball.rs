//! The ball state and the single-sub-step integrator.
//!
//! One sub-step runs four phases:
//! 1. free flight: gravity and air drag are integrated into the velocity
//!    (half before and half after the position move), the speed is capped,
//!    and the position advances by the velocity plus the container's
//!    visual velocity;
//! 2. backtracking: for every penetrated wall not already resolved in the
//!    recent history, the fraction of the step spent beyond the earliest
//!    contact is computed, and position and velocity are pulled back
//!    toward their pre-step values by that fraction per axis;
//! 3. wall interaction: every wall within tolerance snaps the ball onto
//!    its plane and exchanges spin; walls not in the recent history also
//!    reflect the normal velocity;
//! 4. impact decision: a loud-enough, off-cooldown contact emits an
//!    impact event for the caller's audio collaborator.

use vstd::prelude::*;
use crate::fx::{
    Fx, FX_SCALE, iabs, sat64, tdiv, v_add, v_sub, v_neg, v_mul, v_div, v_min, v_max, v_clamp,
    v_lerp, lemma_tdiv_mag, lemma_sat64_mag,
};
use crate::vec2::{Vec2, clamp_axis_v, length_v};
use crate::settings::Settings;
use crate::bounce::{calculate_bounce_spin, bounce_spin_rotation_v, bounce_spin_velocity_v};
use crate::wall_hits::{WallHits, WALL_FLOOR, WALL_CEILING, WALL_RIGHT, WALL_LEFT};

verus! {

/// Tolerance below which a wall counts as touched, one ten-thousandth of
/// a unit: snapping compares distances against this instead of zero to
/// absorb rounding residue.
pub const SMALL_DISTANCE: i64 = 100;

/// Impact-sound cooldown per axis, one sixtieth of a second.
pub const MIN_SOUND_TIME: i64 = 16_667;

/// One full turn, in micro-radians.
pub const TAU: i64 = 6_283_185;

/// Model of [`calculate_normalized_pos`]: where `value` sits between
/// `min` and `max`, as a fraction; zero when the span is empty.
pub open spec fn npos_v(min: int, max: int, value: int) -> int {
    if min == max {
        0
    } else {
        v_div(v_sub(value, min), v_sub(max, min))
    }
}

/// Where `value` sits between `min` and `max`, as a fraction of the span;
/// an empty span reads as zero.
pub fn calculate_normalized_pos(min: Fx, max: Fx, value: Fx) -> (r: Fx)
    ensures
        r.raw as int == npos_v(min.raw as int, max.raw as int, value.raw as int),
{
    if min.raw == max.raw {
        return Fx { raw: 0 };
    }
    value.sub(min).div(max.sub(min))
}

/// Model of [`integrate_free_flight`] on raw counts: returns the new
/// `(position x, position y, velocity x, velocity y)`.
pub open spec fn free_flight_v(
    px: int,
    py: int,
    vx: int,
    vy: int,
    dt: int,
    gravity: int,
    air: int,
    max_velocity: int,
    visx: int,
    visy: int,
) -> (int, int, int, int) {
    let s = FX_SCALE as int;
    let drag = v_mul(air, v_clamp(dt, 0, s));
    let ax = v_sub(v_mul(0, dt), v_mul(vx, drag));
    let ay = v_sub(v_mul(v_mul(gravity, 1000 * s), dt), v_mul(vy, drag));
    let cap = v_mul(max_velocity, 1000 * s);
    let vx1 = v_add(vx, v_mul(ax, 500_000));
    let vy1 = v_add(vy, v_mul(ay, 500_000));
    let vx2 = clamp_axis_v(vx1, cap, length_v(vx1, vy1));
    let vy2 = clamp_axis_v(vy1, cap, length_v(vx1, vy1));
    let px1 = v_add(px, v_mul(v_add(vx2, visx), dt));
    let py1 = v_add(py, v_mul(v_add(vy2, visy), dt));
    let vx3 = v_add(vx2, v_mul(ax, 500_000));
    let vy3 = v_add(vy2, v_mul(ay, 500_000));
    let vx4 = clamp_axis_v(vx3, cap, length_v(vx3, vy3));
    let vy4 = clamp_axis_v(vy3, cap, length_v(vx3, vy3));
    (px1, py1, vx4, vy4)
}

/// Free-flight integration: apply half the gravity/drag acceleration,
/// cap the speed, move the position by the capped velocity plus the
/// container's visual velocity, then apply the second half and cap again.
///
/// Returns `(new_position, new_velocity)`.
pub fn integrate_free_flight(
    position: Vec2,
    velocity: Vec2,
    dt: Fx,
    settings: &Settings,
    visual_box_velocity: Vec2,
) -> (r: (Vec2, Vec2))
    requires
        settings.max_velocity.raw >= 0,
    ensures
        ({
            let m = free_flight_v(
                position.x.raw as int,
                position.y.raw as int,
                velocity.x.raw as int,
                velocity.y.raw as int,
                dt.raw as int,
                settings.gravity_strength.raw as int,
                settings.air_friction.raw as int,
                settings.max_velocity.raw as int,
                visual_box_velocity.x.raw as int,
                visual_box_velocity.y.raw as int,
            );
            r.0.x.raw as int == m.0 && r.0.y.raw as int == m.1 && r.1.x.raw as int == m.2
                && r.1.y.raw as int == m.3
        }),
{
    let half: Fx = Fx { raw: 500_000 };
    let one: Fx = Fx { raw: FX_SCALE };
    let thousand: Fx = Fx::from_units(1000);
    let drag: Fx = settings.air_friction.mul(dt.clamp(Fx { raw: 0 }, one));
    let gravity_rate: Fx = settings.gravity_strength.mul(thousand);
    let accel: Vec2 = Vec2::new(Fx { raw: 0 }, gravity_rate).scale(dt).sub(velocity.scale(drag));
    let cap: Fx = settings.max_velocity.mul(thousand);
    proof {
        lemma_tdiv_mag(settings.max_velocity.raw as int * 1_000_000_000, FX_SCALE as int);
        lemma_sat64_mag(tdiv(settings.max_velocity.raw as int * 1_000_000_000, FX_SCALE as int));
    }
    let v1: Vec2 = velocity.add(accel.scale(half));
    let v2: Vec2 = v1.clamp_length(cap);
    let p1: Vec2 = position.add(v2.add(visual_box_velocity).scale(dt));
    let v3: Vec2 = v2.add(accel.scale(half));
    let v4: Vec2 = v3.clamp_length(cap);
    (p1, v4)
}

/// Model of [`resolve_backtrack`] on raw counts: returns the backtracked
/// `(position x, position y, velocity x, velocity y, new_dt)`.
///
/// Wall ids in the hit history (`l0`, `l1`) suppress a wall's vote for
/// the shared backtrack fraction, but every penetrated wall still raises
/// its own axis' pull-back fraction.
pub open spec fn backtrack_v(
    opx: int,
    opy: int,
    ovx: int,
    ovy: int,
    px: int,
    py: int,
    vx: int,
    vy: int,
    dt: int,
    off: int,
    bx: int,
    by: int,
    l0: int,
    l1: int,
) -> (int, int, int, int, int) {
    let s = FX_SCALE as int;
    let d_floor = v_sub(v_sub(by, off), py);
    let d_ceil = v_sub(v_add(py, by), off);
    let d_right = v_sub(v_sub(bx, off), px);
    let d_left = v_sub(v_add(px, bx), off);
    let f_hit = d_floor <= 0;
    let f_back = v_max(0, v_sub(s, npos_v(opy, py, v_add(py, d_floor))));
    let bvy1 = if f_hit {
        f_back
    } else {
        0
    };
    let ba1 = if f_hit && l0 != 1 && l1 != 1 {
        f_back
    } else {
        0
    };
    let c_hit = d_ceil <= 0;
    let c_back = v_max(ba1, v_sub(s, npos_v(py, opy, v_add(opy, d_ceil))));
    let bvy2 = if c_hit {
        v_max(bvy1, c_back)
    } else {
        bvy1
    };
    let ba2 = if c_hit && l0 != 2 && l1 != 2 {
        c_back
    } else {
        ba1
    };
    let r_hit = d_right <= 0;
    let r_back = v_max(ba2, v_sub(s, npos_v(opx, px, v_add(px, d_right))));
    let bvx1 = if r_hit {
        r_back
    } else {
        0
    };
    let ba3 = if r_hit && l0 != 3 && l1 != 3 {
        r_back
    } else {
        ba2
    };
    let l_hit = d_left <= 0;
    let l_back = v_max(ba3, v_sub(s, npos_v(px, opx, v_add(opx, d_left))));
    let bvx2 = if l_hit {
        v_max(bvx1, l_back)
    } else {
        bvx1
    };
    let ba4 = if l_hit && l0 != 4 && l1 != 4 {
        l_back
    } else {
        ba3
    };
    let new_dt = v_mul(dt, v_sub(s, ba4));
    let bvx3 = v_max(bvx2, ba4);
    let bvy3 = v_max(bvy2, ba4);
    (
        v_lerp(px, opx, bvx3),
        v_lerp(py, opy, bvy3),
        v_lerp(vx, ovx, bvx3),
        v_lerp(vy, ovy, bvy3),
        new_dt,
    )
}

/// Find how far back in time the earliest unresolved wall contact lies,
/// shrink the sub-step to it, and pull position and velocity back toward
/// their pre-flight values by each axis' own fraction.
///
/// Returns `(position, velocity, new_dt)`.
pub fn resolve_backtrack(
    old_position: Vec2,
    old_velocity: Vec2,
    position: Vec2,
    velocity: Vec2,
    dt: Fx,
    offset: Fx,
    box_size: Vec2,
    hits: &WallHits,
) -> (r: (Vec2, Vec2, Fx))
    ensures
        ({
            let m = backtrack_v(
                old_position.x.raw as int,
                old_position.y.raw as int,
                old_velocity.x.raw as int,
                old_velocity.y.raw as int,
                position.x.raw as int,
                position.y.raw as int,
                velocity.x.raw as int,
                velocity.y.raw as int,
                dt.raw as int,
                offset.raw as int,
                box_size.x.raw as int,
                box_size.y.raw as int,
                hits.latest as int,
                hits.previous as int,
            );
            r.0.x.raw as int == m.0 && r.0.y.raw as int == m.1 && r.1.x.raw as int == m.2
                && r.1.y.raw as int == m.3 && r.2.raw as int == m.4
        }),
{
    let one: Fx = Fx { raw: FX_SCALE };
    let zero: Fx = Fx { raw: 0 };
    let d_floor: Fx = box_size.y.sub(offset).sub(position.y);
    let d_ceil: Fx = position.y.add(box_size.y).sub(offset);
    let d_right: Fx = box_size.x.sub(offset).sub(position.x);
    let d_left: Fx = position.x.add(box_size.x).sub(offset);

    let mut back_amount: Fx = zero;
    let mut back_x: Fx = zero;
    let mut back_y: Fx = zero;

    if d_floor.raw <= 0 {
        let back_for_axis: Fx = back_amount.max(
            one.sub(
                calculate_normalized_pos(old_position.y, position.y, position.y.add(d_floor)),
            ),
        );
        back_y = back_y.max(back_for_axis);
        if !hits.contains(WALL_FLOOR) {
            back_amount = back_for_axis;
        }
    }
    if d_ceil.raw <= 0 {
        let back_for_axis: Fx = back_amount.max(
            one.sub(
                calculate_normalized_pos(position.y, old_position.y, old_position.y.add(d_ceil)),
            ),
        );
        back_y = back_y.max(back_for_axis);
        if !hits.contains(WALL_CEILING) {
            back_amount = back_for_axis;
        }
    }
    if d_right.raw <= 0 {
        let back_for_axis: Fx = back_amount.max(
            one.sub(
                calculate_normalized_pos(old_position.x, position.x, position.x.add(d_right)),
            ),
        );
        back_x = back_x.max(back_for_axis);
        if !hits.contains(WALL_RIGHT) {
            back_amount = back_for_axis;
        }
    }
    if d_left.raw <= 0 {
        let back_for_axis: Fx = back_amount.max(
            one.sub(
                calculate_normalized_pos(position.x, old_position.x, old_position.x.add(d_left)),
            ),
        );
        back_x = back_x.max(back_for_axis);
        if !hits.contains(WALL_LEFT) {
            back_amount = back_for_axis;
        }
    }

    let new_dt: Fx = dt.mul(one.sub(back_amount));
    back_x = back_x.max(back_amount);
    back_y = back_y.max(back_amount);

    let out_position: Vec2 = Vec2::new(
        position.x.lerp(old_position.x, back_x),
        position.y.lerp(old_position.y, back_y),
    );
    let out_velocity: Vec2 = Vec2::new(
        velocity.x.lerp(old_velocity.x, back_x),
        velocity.y.lerp(old_velocity.y, back_y),
    );
    (out_position, out_velocity, new_dt)
}

/// Model of [`apply_wall_interactions`] on raw counts: returns
/// `(position x, position y, velocity x, velocity y, rotation velocity,
/// latest wall id, hit speed x, hit speed y)`.
///
/// Walls are handled in the order floor, ceiling, right, left; each
/// wall's update sees the state as the previous wall left it. A wall in
/// the hit history (`l0`, `l1`) exchanges spin but does not reflect.
pub open spec fn walls_v(
    px: int,
    py: int,
    vx: int,
    vy: int,
    rv: int,
    radius: int,
    stx: int,
    sty: int,
    visx: int,
    visy: int,
    smx: int,
    smy: int,
    bounciness: int,
    weight: int,
    friction: int,
    off: int,
    bx: int,
    by: int,
    l0: int,
    l1: int,
) -> (int, int, int, int, int, int, int, int) {
    let small = SMALL_DISTANCE as int;
    let d_floor = v_sub(v_sub(by, off), py);
    let d_ceil = v_sub(v_add(py, by), off);
    let d_right = v_sub(v_sub(bx, off), px);
    let d_left = v_sub(v_add(px, bx), off);
    let f_hit = d_floor <= small;
    let hwy1 = if f_hit {
        v_max(0, sat64(iabs(sty)))
    } else {
        0
    };
    let py1 = if f_hit {
        v_sub(by, off)
    } else {
        py
    };
    let f_new = f_hit && l0 != 1 && l1 != 1;
    let lat1 = if f_new {
        1
    } else {
        l0
    };
    let vy1 = if f_new {
        v_min(vy, v_sub(v_mul(v_neg(vy), bounciness), smy))
    } else {
        vy
    };
    let rv1 = if f_hit {
        bounce_spin_rotation_v(vx, visx, rv, radius, friction, false)
    } else {
        rv
    };
    let vx1 = if f_hit {
        bounce_spin_velocity_v(vx, visx, rv, radius, weight, friction, false)
    } else {
        vx
    };
    let c_hit = d_ceil <= small;
    let hwy2 = if c_hit {
        v_max(hwy1, sat64(iabs(sty)))
    } else {
        hwy1
    };
    let py2 = if c_hit {
        v_add(v_neg(by), off)
    } else {
        py1
    };
    let c_new = c_hit && l0 != 2 && l1 != 2;
    let lat2 = if c_new {
        2
    } else {
        lat1
    };
    let vy2 = if c_new {
        v_max(vy1, v_sub(v_mul(v_neg(vy1), bounciness), smy))
    } else {
        vy1
    };
    let rv2 = if c_hit {
        bounce_spin_rotation_v(vx1, visx, rv1, radius, friction, true)
    } else {
        rv1
    };
    let vx2 = if c_hit {
        bounce_spin_velocity_v(vx1, visx, rv1, radius, weight, friction, true)
    } else {
        vx1
    };
    let r_hit = d_right <= small;
    let hwx1 = if r_hit {
        v_max(0, sat64(iabs(stx)))
    } else {
        0
    };
    let px1 = if r_hit {
        v_sub(bx, off)
    } else {
        px
    };
    let r_new = r_hit && l0 != 3 && l1 != 3;
    let lat3 = if r_new {
        3
    } else {
        lat2
    };
    let vx3 = if r_new {
        v_min(vx2, v_sub(v_mul(v_neg(vx2), bounciness), smx))
    } else {
        vx2
    };
    let rv3 = if r_hit {
        bounce_spin_rotation_v(vy2, visy, rv2, radius, friction, true)
    } else {
        rv2
    };
    let vy3 = if r_hit {
        bounce_spin_velocity_v(vy2, visy, rv2, radius, weight, friction, true)
    } else {
        vy2
    };
    let l_hit = d_left <= small;
    let hwx2 = if l_hit {
        v_max(hwx1, sat64(iabs(stx)))
    } else {
        hwx1
    };
    let px2 = if l_hit {
        v_add(v_neg(bx), off)
    } else {
        px1
    };
    let l_new = l_hit && l0 != 4 && l1 != 4;
    let lat4 = if l_new {
        4
    } else {
        lat3
    };
    let vx4 = if l_new {
        v_max(vx3, v_sub(v_mul(v_neg(vx3), bounciness), smx))
    } else {
        vx3
    };
    let rv4 = if l_hit {
        bounce_spin_rotation_v(vy3, visy, rv3, radius, friction, false)
    } else {
        rv3
    };
    let vy4 = if l_hit {
        bounce_spin_velocity_v(vy3, visy, rv3, radius, weight, friction, false)
    } else {
        vy3
    };
    (px2, py2, vx4, vy4, rv4, lat4, hwx2, hwy2)
}

/// Snap the ball onto every wall within tolerance, reflect the normal
/// velocity off walls not in the recent hit history, and exchange spin
/// with every touched wall.
///
/// Returns `(position, velocity, rotation_velocity, latest wall id,
/// hit_speed)`.
pub fn apply_wall_interactions(
    position: Vec2,
    velocity: Vec2,
    rotation_velocity: Fx,
    radius: Fx,
    smoothed_total_velocity: Vec2,
    visual_box_velocity: Vec2,
    smoothed_box_velocity: Vec2,
    settings: &Settings,
    offset: Fx,
    box_size: Vec2,
    hits: &WallHits,
) -> (r: (Vec2, Vec2, Fx, u8, Vec2))
    ensures
        ({
            let m = walls_v(
                position.x.raw as int,
                position.y.raw as int,
                velocity.x.raw as int,
                velocity.y.raw as int,
                rotation_velocity.raw as int,
                radius.raw as int,
                smoothed_total_velocity.x.raw as int,
                smoothed_total_velocity.y.raw as int,
                visual_box_velocity.x.raw as int,
                visual_box_velocity.y.raw as int,
                smoothed_box_velocity.x.raw as int,
                smoothed_box_velocity.y.raw as int,
                settings.ball_bounciness.raw as int,
                settings.ball_weight.raw as int,
                settings.ball_friction.raw as int,
                offset.raw as int,
                box_size.x.raw as int,
                box_size.y.raw as int,
                hits.latest as int,
                hits.previous as int,
            );
            r.0.x.raw as int == m.0 && r.0.y.raw as int == m.1 && r.1.x.raw as int == m.2
                && r.1.y.raw as int == m.3 && r.2.raw as int == m.4 && r.3 as int == m.5
                && r.4.x.raw as int == m.6 && r.4.y.raw as int == m.7
        }),
{
    let d_floor: Fx = box_size.y.sub(offset).sub(position.y);
    let d_ceil: Fx = position.y.add(box_size.y).sub(offset);
    let d_right: Fx = box_size.x.sub(offset).sub(position.x);
    let d_left: Fx = position.x.add(box_size.x).sub(offset);

    let mut pos: Vec2 = position;
    let mut vel: Vec2 = velocity;
    let mut rv: Fx = rotation_velocity;
    let mut latest: u8 = hits.latest;
    let mut hit_speed: Vec2 = Vec2::zero();

    if d_floor.raw <= SMALL_DISTANCE {
        hit_speed = Vec2::new(hit_speed.x, hit_speed.y.max(smoothed_total_velocity.y.abs()));
        pos = Vec2::new(pos.x, box_size.y.sub(offset));
        if !hits.contains(WALL_FLOOR) {
            latest = WALL_FLOOR;
            vel = Vec2::new(
                vel.x,
                vel.y.min(
                    vel.y.neg().mul(settings.ball_bounciness).sub(smoothed_box_velocity.y),
                ),
            );
        }
        let spun: (Fx, Fx) = calculate_bounce_spin(
            vel.x,
            visual_box_velocity.x,
            rv,
            radius,
            settings.ball_weight,
            settings.ball_friction,
            false,
        );
        rv = spun.0;
        vel = Vec2::new(spun.1, vel.y);
    }
    if d_ceil.raw <= SMALL_DISTANCE {
        hit_speed = Vec2::new(hit_speed.x, hit_speed.y.max(smoothed_total_velocity.y.abs()));
        pos = Vec2::new(pos.x, box_size.y.neg().add(offset));
        if !hits.contains(WALL_CEILING) {
            latest = WALL_CEILING;
            vel = Vec2::new(
                vel.x,
                vel.y.max(
                    vel.y.neg().mul(settings.ball_bounciness).sub(smoothed_box_velocity.y),
                ),
            );
        }
        let spun: (Fx, Fx) = calculate_bounce_spin(
            vel.x,
            visual_box_velocity.x,
            rv,
            radius,
            settings.ball_weight,
            settings.ball_friction,
            true,
        );
        rv = spun.0;
        vel = Vec2::new(spun.1, vel.y);
    }
    if d_right.raw <= SMALL_DISTANCE {
        hit_speed = Vec2::new(hit_speed.x.max(smoothed_total_velocity.x.abs()), hit_speed.y);
        pos = Vec2::new(box_size.x.sub(offset), pos.y);
        if !hits.contains(WALL_RIGHT) {
            latest = WALL_RIGHT;
            vel = Vec2::new(
                vel.x.min(
                    vel.x.neg().mul(settings.ball_bounciness).sub(smoothed_box_velocity.x),
                ),
                vel.y,
            );
        }
        let spun: (Fx, Fx) = calculate_bounce_spin(
            vel.y,
            visual_box_velocity.y,
            rv,
            radius,
            settings.ball_weight,
            settings.ball_friction,
            true,
        );
        rv = spun.0;
        vel = Vec2::new(vel.x, spun.1);
    }
    if d_left.raw <= SMALL_DISTANCE {
        hit_speed = Vec2::new(hit_speed.x.max(smoothed_total_velocity.x.abs()), hit_speed.y);
        pos = Vec2::new(box_size.x.neg().add(offset), pos.y);
        if !hits.contains(WALL_LEFT) {
            latest = WALL_LEFT;
            vel = Vec2::new(
                vel.x.max(
                    vel.x.neg().mul(settings.ball_bounciness).sub(smoothed_box_velocity.x),
                ),
                vel.y,
            );
        }
        let spun: (Fx, Fx) = calculate_bounce_spin(
            vel.y,
            visual_box_velocity.y,
            rv,
            radius,
            settings.ball_weight,
            settings.ball_friction,
            false,
        );
        rv = spun.0;
        vel = Vec2::new(vel.x, spun.1);
    }
    (pos, vel, rv, latest, hit_speed)
}

/// An impact loud and fresh enough to be worth a sound, handed to the
/// caller's audio collaborator.
#[derive(Clone, Copy, PartialEq, Eq, Structural, Debug)]
pub struct Impact {
    /// The contact speed per axis that triggered the event.
    pub hit_speed: Vec2,
    /// `x` such that the playback volume is `1 - e^(-x)`, before the
    /// user's volume setting: the exponential map itself is left to the
    /// audio layer.
    pub volume_exponent: Fx,
}

/// Model of [`decide_impact`] on raw counts: returns `(fire, volume
/// exponent, horizontal cooldown, vertical cooldown)`.
pub open spec fn impact_v(
    hwx: int,
    hwy: int,
    px: int,
    py: int,
    bx: int,
    by: int,
    speed_limit: int,
    density: int,
    ht: int,
    vt: int,
    new_dt: int,
) -> (bool, int, int, int) {
    let s = FX_SCALE as int;
    let fire = (ht <= 0 && hwx > speed_limit) || (vt <= 0 && hwy > speed_limit);
    let idx = sat64(iabs(px));
    let idy = v_add(sat64(iabs(py)), v_sub(bx, by));
    let dist = v_sub(bx, v_min(idx, idy));
    let sv1 = v_sub(v_max(hwx, hwy), speed_limit);
    let sv2 = v_div(sv1, 450_000_000);
    let sv3 = v_mul(sv2, v_add(s, v_div(dist, 200_000_000)));
    let expo = v_mul(v_mul(v_mul(sv3, sv3), density), density);
    let ht1 = if hwx != 0 {
        MIN_SOUND_TIME as int
    } else {
        v_sub(ht, new_dt)
    };
    let vt1 = if hwy != 0 {
        MIN_SOUND_TIME as int
    } else {
        v_sub(vt, new_dt)
    };
    (fire, expo, ht1, vt1)
}

/// Decide whether this sub-step's wall contact emits an impact event: it
/// does when an axis was hit faster than the speed threshold while its
/// cooldown was expired. The event's loudness exponent grows with the
/// square of the contact speed, scaled up the closer the contact is to
/// the middle of the longer wall, and with the square of the configured
/// density. Each touched axis then restarts its cooldown.
///
/// Returns `(event, horizontal cooldown, vertical cooldown)`.
pub fn decide_impact(
    hit_speed: Vec2,
    position: Vec2,
    box_size: Vec2,
    settings: &Settings,
    horizontal_timer: Fx,
    vertical_timer: Fx,
    new_dt: Fx,
) -> (r: (Option<Impact>, Fx, Fx))
    ensures
        ({
            let m = impact_v(
                hit_speed.x.raw as int,
                hit_speed.y.raw as int,
                position.x.raw as int,
                position.y.raw as int,
                box_size.x.raw as int,
                box_size.y.raw as int,
                settings.min_hit_speed.raw as int,
                settings.hit_density.raw as int,
                horizontal_timer.raw as int,
                vertical_timer.raw as int,
                new_dt.raw as int,
            );
            &&& (r.0 is Some) == m.0
            &&& (m.0 ==> r.0 == Some(
                Impact { hit_speed, volume_exponent: Fx { raw: m.1 as i64 } },
            ))
            &&& r.1.raw as int == m.2
            &&& r.2.raw as int == m.3
        }),
{
    let one: Fx = Fx { raw: FX_SCALE };
    let horizontal_ready: bool = horizontal_timer.raw <= 0;
    let vertical_ready: bool = vertical_timer.raw <= 0;

    let event: Option<Impact> = if (horizontal_ready && hit_speed.x.raw
        > settings.min_hit_speed.raw) || (vertical_ready && hit_speed.y.raw
        > settings.min_hit_speed.raw) {
        let inverted_distances: Vec2 = position.abs().add(
            Vec2::new(Fx { raw: 0 }, box_size.x.sub(box_size.y)),
        );
        let distance_from_corner: Fx = box_size.x.sub(inverted_distances.min_element());
        let sv1: Fx = hit_speed.max_element().sub(settings.min_hit_speed);
        let sv2: Fx = sv1.div(Fx::from_units(450));
        let sv3: Fx = sv2.mul(one.add(distance_from_corner.div(Fx::from_units(200))));
        let expo: Fx = sv3.mul(sv3).mul(settings.hit_density).mul(settings.hit_density);
        Some(Impact { hit_speed, volume_exponent: expo })
    } else {
        None
    };

    let new_horizontal: Fx = if hit_speed.x.raw != 0 {
        Fx { raw: MIN_SOUND_TIME }
    } else {
        horizontal_timer.sub(new_dt)
    };
    let new_vertical: Fx = if hit_speed.y.raw != 0 {
        Fx { raw: MIN_SOUND_TIME }
    } else {
        vertical_timer.sub(new_dt)
    };
    (event, new_horizontal, new_vertical)
}

/// Wrap an angle into `[0, TAU)`: the result is the Euclidean remainder
/// of the raw count by a full turn.
pub fn wrap_angle(a: Fx) -> (r: Fx)
    ensures
        r.raw as int == (a.raw as int) % (TAU as int),
        0 <= r.raw < TAU,
{
    proof {
        lemma_tdiv_mag(a.raw as int, TAU as int);
    }
    let q: i64 = match a.raw.checked_div(TAU) {
        Some(v) => v,
        None => 0,
    };
    let m: i64 = match q.checked_mul(TAU) {
        Some(v) => v,
        None => 0,
    };
    proof {
        let ai = a.raw as int;
        let t = TAU as int;
        assert(iabs(q as int) * t <= iabs(ai));
        assert(iabs(q as int * t) <= iabs(ai)) by (nonlinear_arith)
            requires
                iabs(q as int) * t <= iabs(ai),
                t > 0,
                iabs(q as int * t) == if q as int * t >= 0 {
                    q as int * t
                } else {
                    -(q as int * t)
                },
                iabs(q as int) == if q as int >= 0 {
                    q as int
                } else {
                    -(q as int)
                },
        ;
    }
    let r0: i64 = a.raw - m;
    let r: i64 = if r0 < 0 {
        r0 + TAU
    } else {
        r0
    };
    proof {
        let ai = a.raw as int;
        let t = TAU as int;
        let k: int = if r0 < 0 {
            q as int - 1
        } else {
            q as int
        };
        vstd::arithmetic::div_mod::lemma_fundamental_div_mod(ai, t);
        assert(0 <= ai % t < t) by {
            vstd::arithmetic::div_mod::lemma_mod_bound(ai, t);
        }
        assert(ai == t * k + r);
        assert(r as int == ai % t) by (nonlinear_arith)
            requires
                ai == t * k + r,
                0 <= r < t,
                ai == t * (ai / t) + ai % t,
                0 <= ai % t < t,
                t > 0,
        ;
    }
    Fx { raw: r }
}

/// The ball's complete simulation state, in container-local micro-units.
#[derive(Clone, Copy, PartialEq, Eq, Structural, Debug)]
pub struct Ball {
    /// Center of the ball, relative to the container's center.
    pub position: Vec2,
    /// Linear velocity in units per second.
    pub velocity: Vec2,
    /// Visual spin angle, wrapped into `[0, TAU)`.
    pub rotation: Fx,
    /// Angular velocity driving `rotation`.
    pub rotation_velocity: Fx,
    /// Cooldown left before the vertical axis may sound again.
    pub vertical_sound_timer: Fx,
    /// Cooldown left before the horizontal axis may sound again.
    pub horizontal_sound_timer: Fx,
    /// Ball radius; the surrounding application may change it between
    /// steps when the user re-tunes the simulation.
    pub radius: Fx,
}

impl Ball {
    /// A ball at rest in the container's center.
    pub fn new(radius: Fx) -> (r: Ball)
        ensures
            r.position.x.raw == 0 && r.position.y.raw == 0,
            r.velocity.x.raw == 0 && r.velocity.y.raw == 0,
            r.rotation.raw == 0 && r.rotation_velocity.raw == 0,
            r.vertical_sound_timer.raw == 0 && r.horizontal_sound_timer.raw == 0,
            r.radius == radius,
    {
        Ball {
            position: Vec2 { x: Fx { raw: 0 }, y: Fx { raw: 0 } },
            velocity: Vec2 { x: Fx { raw: 0 }, y: Fx { raw: 0 } },
            rotation: Fx { raw: 0 },
            rotation_velocity: Fx { raw: 0 },
            vertical_sound_timer: Fx { raw: 0 },
            horizontal_sound_timer: Fx { raw: 0 },
            radius,
        }
    }

    /// Run the physics for one sub-step of at most `dt`. Returns the time
    /// that is left to be simulated, and the impact event if this
    /// sub-step's wall contact deserves a sound.
    ///
    /// The final state is pinned exactly by the phase models: free
    /// flight, backtracking to the earliest unresolved contact, wall
    /// snapping/reflection/spin, and the impact decision, with the spin
    /// angle advanced by the simulated fraction of `dt` in between.
    pub fn step(
        &mut self,
        dt: Fx,
        settings: &Settings,
        visual_box_velocity: Vec2,
        smoothed_box_velocity: Vec2,
        wall_hits: &mut WallHits,
        box_size: Vec2,
    ) -> (r: (Fx, Option<Impact>))
        requires
            settings.wf(),
            dt.raw >= 0,
            0 <= old(self).radius.raw <= 20_000_000_000,
            0 <= box_size.x.raw <= 20_000_000_000,
            0 <= box_size.y.raw <= 20_000_000_000,
        ensures
            ({
                let s = FX_SCALE as int;
                let off = wall_offset_v(
                    old(self).radius.raw as int,
                    settings.box_thickness as int,
                    settings.box_depth as int,
                );
                let l0 = old(wall_hits).previous as int;
                let l1 = old(wall_hits).latest as int;
                let ff = free_flight_v(
                    old(self).position.x.raw as int,
                    old(self).position.y.raw as int,
                    old(self).velocity.x.raw as int,
                    old(self).velocity.y.raw as int,
                    dt.raw as int,
                    settings.gravity_strength.raw as int,
                    settings.air_friction.raw as int,
                    settings.max_velocity.raw as int,
                    visual_box_velocity.x.raw as int,
                    visual_box_velocity.y.raw as int,
                );
                let stx = v_add(ff.2, smoothed_box_velocity.x.raw as int);
                let sty = v_add(ff.3, smoothed_box_velocity.y.raw as int);
                let bt = backtrack_v(
                    old(self).position.x.raw as int,
                    old(self).position.y.raw as int,
                    old(self).velocity.x.raw as int,
                    old(self).velocity.y.raw as int,
                    ff.0,
                    ff.1,
                    ff.2,
                    ff.3,
                    dt.raw as int,
                    off,
                    box_size.x.raw as int,
                    box_size.y.raw as int,
                    l0,
                    l1,
                );
                let w = walls_v(
                    bt.0,
                    bt.1,
                    bt.2,
                    bt.3,
                    old(self).rotation_velocity.raw as int,
                    old(self).radius.raw as int,
                    stx,
                    sty,
                    visual_box_velocity.x.raw as int,
                    visual_box_velocity.y.raw as int,
                    smoothed_box_velocity.x.raw as int,
                    smoothed_box_velocity.y.raw as int,
                    settings.ball_bounciness.raw as int,
                    settings.ball_weight.raw as int,
                    settings.ball_friction.raw as int,
                    off,
                    box_size.x.raw as int,
                    box_size.y.raw as int,
                    l0,
                    l1,
                );
                let im = impact_v(
                    w.6,
                    w.7,
                    w.0,
                    w.1,
                    box_size.x.raw as int,
                    box_size.y.raw as int,
                    settings.min_hit_speed.raw as int,
                    settings.hit_density.raw as int,
                    old(self).horizontal_sound_timer.raw as int,
                    old(self).vertical_sound_timer.raw as int,
                    bt.4,
                );
                &&& final(self).position.x.raw as int == w.0
                &&& final(self).position.y.raw as int == w.1
                &&& final(self).velocity.x.raw as int == w.2
                &&& final(self).velocity.y.raw as int == w.3
                &&& final(self).rotation_velocity.raw as int == w.4
                &&& final(self).rotation.raw as int == v_add(
                    old(self).rotation.raw as int,
                    v_mul(old(self).rotation_velocity.raw as int, bt.4),
                ) % (TAU as int)
                &&& final(self).horizontal_sound_timer.raw as int == im.2
                &&& final(self).vertical_sound_timer.raw as int == im.3
                &&& final(self).radius == old(self).radius
                &&& final(wall_hits).latest as int == w.5
                &&& final(wall_hits).previous as int == l1
                &&& r.0.raw as int == v_sub(dt.raw as int, bt.4)
                &&& (r.1 is Some) == im.0
                &&& (im.0 ==> r.1 == Some(
                    (Impact {
                        hit_speed: (Vec2 { x: Fx { raw: w.6 as i64 }, y: Fx { raw: w.7 as i64 } }),
                        volume_exponent: Fx { raw: im.1 as i64 },
                    }),
                ))
                &&& ({
                    let bound_x = v_sub(box_size.x.raw as int, off);
                    let bound_y = v_sub(box_size.y.raw as int, off);
                    &&& (bound_x >= 0 && bound_y >= 0 ==> -bound_x <= w.0 <= bound_x && -bound_y
                        <= w.1 <= bound_y)
                    &&& (bound_x >= 0 && bound_y >= 0 && -bound_x <= old(self).position.x.raw
                        as int <= bound_x && -bound_y <= old(self).position.y.raw as int <= bound_y
                        && moderate(ff.0) && moderate(ff.1) ==> 0 <= bt.4 <= dt.raw
                        && r.0.raw as int == dt.raw - bt.4 && 0 <= r.0.raw <= dt.raw)
                })
            }),
    {
        let box_thickness: Fx = Fx::from_units(settings.box_thickness as i64);
        let box_depth: Fx = Fx::from_units(settings.box_depth as i64);
        let box_offset: Fx = box_thickness.add(box_depth);
        let wall_and_ball_offset: Fx = self.radius.add(box_offset);

        wall_hits.rotate();

        let old_position: Vec2 = self.position;
        let old_velocity: Vec2 = self.velocity;

        let flight: (Vec2, Vec2) = integrate_free_flight(
            self.position,
            self.velocity,
            dt,
            settings,
            visual_box_velocity,
        );
        self.position = flight.0;
        self.velocity = flight.1;

        let smoothed_total_velocity: Vec2 = self.velocity.add(smoothed_box_velocity);

        let back: (Vec2, Vec2, Fx) = resolve_backtrack(
            old_position,
            old_velocity,
            self.position,
            self.velocity,
            dt,
            wall_and_ball_offset,
            box_size,
            wall_hits,
        );
        self.position = back.0;
        self.velocity = back.1;
        let new_dt: Fx = back.2;

        self.rotation = wrap_angle(self.rotation.add(self.rotation_velocity.mul(new_dt)));

        let walls: (Vec2, Vec2, Fx, u8, Vec2) = apply_wall_interactions(
            self.position,
            self.velocity,
            self.rotation_velocity,
            self.radius,
            smoothed_total_velocity,
            visual_box_velocity,
            smoothed_box_velocity,
            settings,
            wall_and_ball_offset,
            box_size,
            wall_hits,
        );
        self.position = walls.0;
        self.velocity = walls.1;
        self.rotation_velocity = walls.2;
        wall_hits.latest = walls.3;
        let hit_speed: Vec2 = walls.4;

        let impact: (Option<Impact>, Fx, Fx) = decide_impact(
            hit_speed,
            self.position,
            box_size,
            settings,
            self.horizontal_sound_timer,
            self.vertical_sound_timer,
            new_dt,
        );
        self.horizontal_sound_timer = impact.1;
        self.vertical_sound_timer = impact.2;

        proof {
            let off = wall_and_ball_offset.raw as int;
            let bx = box_size.x.raw as int;
            let by = box_size.y.raw as int;
            let bound_x = v_sub(bx, off);
            let bound_y = v_sub(by, off);
            if bound_x >= 0 && bound_y >= 0 {
                lemma_walls_containment(
                    back.0.x.raw as int,
                    back.0.y.raw as int,
                    back.1.x.raw as int,
                    back.1.y.raw as int,
                    walls.2.raw as int,
                    self.radius.raw as int,
                    smoothed_total_velocity.x.raw as int,
                    smoothed_total_velocity.y.raw as int,
                    visual_box_velocity.x.raw as int,
                    visual_box_velocity.y.raw as int,
                    smoothed_box_velocity.x.raw as int,
                    smoothed_box_velocity.y.raw as int,
                    settings.ball_bounciness.raw as int,
                    settings.ball_weight.raw as int,
                    settings.ball_friction.raw as int,
                    off,
                    bx,
                    by,
                    wall_hits.previous as int,
                    old(wall_hits).latest as int,
                );
                if -bound_x <= old(self).position.x.raw as int <= bound_x && -bound_y <= old(
                    self,
                ).position.y.raw as int <= bound_y && moderate(flight.0.x.raw as int) && moderate(
                    flight.0.y.raw as int,
                ) {
                    lemma_backtrack_dt_range(
                        old_position.x.raw as int,
                        old_position.y.raw as int,
                        old_velocity.x.raw as int,
                        old_velocity.y.raw as int,
                        flight.0.x.raw as int,
                        flight.0.y.raw as int,
                        flight.1.x.raw as int,
                        flight.1.y.raw as int,
                        dt.raw as int,
                        off,
                        bx,
                        by,
                        old(wall_hits).previous as int,
                        old(wall_hits).latest as int,
                    );
                }
            }
        }
        (dt.sub(new_dt), impact.0)
    }
}

/// The combined distance a wall plane keeps from the container edge:
/// the ball's radius plus the wall's thickness and depth, on raw counts.
pub open spec fn wall_offset_v(radius: int, box_thickness: int, box_depth: int) -> int {
    v_add(
        radius,
        v_add(sat64(box_thickness * (FX_SCALE as int)), sat64(box_depth * (FX_SCALE as int))),
    )
}

/// The ball's center lies between the wall planes of both axes.
pub open spec fn contained_v(px: int, py: int, off: int, bx: int, by: int) -> bool {
    &&& -v_sub(bx, off) <= px <= v_sub(bx, off)
    &&& -v_sub(by, off) <= py <= v_sub(by, off)
}

/// The i64 range, as a magnitude bound for raw counts.
pub open spec fn raw_in_range(x: int) -> bool {
    i64::MIN as int <= x <= i64::MAX as int
}

/// A position raw count far enough from the representable extremes that
/// wall distances computed from it do not saturate.
pub open spec fn moderate(x: int) -> bool {
    iabs(x) <= 9_200_000_000_000_000_000
}

/// The backtrack fraction read off a penetrated positive-axis wall is a
/// true fraction when the pre-flight position respected that axis' walls.
proof fn lemma_npos_range_positive_wall(o: int, p: int, b: int, off: int)
    requires
        0 <= off <= 40_000_000_000,
        0 <= b <= 20_000_000_000,
        v_sub(b, off) >= 0,
        -v_sub(b, off) <= o <= v_sub(b, off),
        moderate(p),
        v_sub(v_sub(b, off), p) <= 0,
    ensures
        0 <= npos_v(o, p, v_add(p, v_sub(v_sub(b, off), p))) <= FX_SCALE as int,
{
    let s = FX_SCALE as int;
    let bound = v_sub(b, off);
    let d = v_sub(bound, p);
    assert(d == bound - p);
    assert(p >= bound);
    let val = v_add(p, d);
    assert(val == bound);
    if o == p {
    } else {
        let num = v_sub(val, o);
        let den = v_sub(p, o);
        assert(num == bound - o);
        assert(den == p - o);
        assert(0 <= num <= den);
        assert(den > 0);
        crate::fx::lemma_scaled_fraction(s, num, den);
        assert(num * s == s * num) by (nonlinear_arith);
        lemma_sat64_mag(tdiv(num * s, den));
    }
}

/// The backtrack fraction read off a penetrated negative-axis wall is a
/// true fraction when the pre-flight position respected that axis' walls.
proof fn lemma_npos_range_negative_wall(o: int, p: int, b: int, off: int)
    requires
        0 <= off <= 40_000_000_000,
        0 <= b <= 20_000_000_000,
        v_sub(b, off) >= 0,
        -v_sub(b, off) <= o <= v_sub(b, off),
        moderate(p),
        v_sub(v_add(p, b), off) <= 0,
    ensures
        0 <= npos_v(p, o, v_add(o, v_sub(v_add(p, b), off))) <= FX_SCALE as int,
{
    let s = FX_SCALE as int;
    let bound = v_sub(b, off);
    let a = v_add(p, b);
    assert(a == p + b);
    let d = v_sub(a, off);
    assert(d == p + b - off);
    assert(p <= -bound);
    let val = v_add(o, d);
    assert(val == o + p + b - off);
    if p == o {
    } else {
        let num = v_sub(val, p);
        let den = v_sub(o, p);
        assert(num == o + b - off);
        assert(den == o - p);
        assert(0 <= num <= den);
        assert(den > 0);
        crate::fx::lemma_scaled_fraction(s, num, den);
        assert(num * s == s * num) by (nonlinear_arith);
        lemma_sat64_mag(tdiv(num * s, den));
    }
}

/// When the step began inside the walls and free flight kept the
/// position away from the representable extremes, the backtracked
/// sub-step length is a true fraction of the requested one: backtracking
/// only ever gives time back, never borrows it.
pub proof fn lemma_backtrack_dt_range(
    opx: int,
    opy: int,
    ovx: int,
    ovy: int,
    px: int,
    py: int,
    vx: int,
    vy: int,
    dt: int,
    off: int,
    bx: int,
    by: int,
    l0: int,
    l1: int,
)
    requires
        dt >= 0,
        raw_in_range(dt),
        0 <= off <= 40_000_000_000,
        0 <= bx <= 20_000_000_000,
        0 <= by <= 20_000_000_000,
        v_sub(bx, off) >= 0,
        v_sub(by, off) >= 0,
        -v_sub(bx, off) <= opx <= v_sub(bx, off),
        -v_sub(by, off) <= opy <= v_sub(by, off),
        moderate(px),
        moderate(py),
    ensures
        0 <= backtrack_v(opx, opy, ovx, ovy, px, py, vx, vy, dt, off, bx, by, l0, l1).4 <= dt,
{
    let s = FX_SCALE as int;
    let d_floor = v_sub(v_sub(by, off), py);
    let d_ceil = v_sub(v_add(py, by), off);
    let d_right = v_sub(v_sub(bx, off), px);
    let d_left = v_sub(v_add(px, bx), off);
    if d_floor <= 0 {
        lemma_npos_range_positive_wall(opy, py, by, off);
    }
    if d_ceil <= 0 {
        lemma_npos_range_negative_wall(opy, py, by, off);
    }
    if d_right <= 0 {
        lemma_npos_range_positive_wall(opx, px, bx, off);
    }
    if d_left <= 0 {
        lemma_npos_range_negative_wall(opx, px, bx, off);
    }
    let m = backtrack_v(opx, opy, ovx, ovy, px, py, vx, vy, dt, off, bx, by, l0, l1);
    let f_back = v_max(0, v_sub(s, npos_v(opy, py, v_add(py, d_floor))));
    let ba1: int = if d_floor <= 0 && l0 != 1 && l1 != 1 {
        f_back
    } else {
        0
    };
    assert(0 <= ba1 <= s);
    let c_back = v_max(ba1, v_sub(s, npos_v(py, opy, v_add(opy, d_ceil))));
    let ba2: int = if d_ceil <= 0 && l0 != 2 && l1 != 2 {
        c_back
    } else {
        ba1
    };
    assert(0 <= ba2 <= s);
    let r_back = v_max(ba2, v_sub(s, npos_v(opx, px, v_add(px, d_right))));
    let ba3: int = if d_right <= 0 && l0 != 3 && l1 != 3 {
        r_back
    } else {
        ba2
    };
    assert(0 <= ba3 <= s);
    let l_back = v_max(ba3, v_sub(s, npos_v(px, opx, v_add(opx, d_left))));
    let ba4: int = if d_left <= 0 && l0 != 4 && l1 != 4 {
        l_back
    } else {
        ba3
    };
    assert(0 <= ba4 <= s);
    crate::fx::lemma_scaled_fraction(dt, v_sub(s, ba4), s);
    assert(dt * v_sub(s, ba4) == v_sub(s, ba4) * dt) by (nonlinear_arith);
    lemma_sat64_mag(tdiv(dt * v_sub(s, ba4), s));
    assert(m.4 == v_mul(dt, v_sub(s, ba4)));
    assert(0 <= m.4 <= dt);
}

/// After the wall phase the ball's center lies on or inside every wall
/// plane, whenever the ball fits in the container at all: any wall
/// within tolerance was snapped exactly onto its plane, and a wall
/// beyond tolerance was strictly clear of the center to begin with.
pub proof fn lemma_walls_containment(
    px: int,
    py: int,
    vx: int,
    vy: int,
    rv: int,
    radius: int,
    stx: int,
    sty: int,
    visx: int,
    visy: int,
    smx: int,
    smy: int,
    bounciness: int,
    weight: int,
    friction: int,
    off: int,
    bx: int,
    by: int,
    l0: int,
    l1: int,
)
    requires
        0 <= off <= 40_000_000_000,
        0 <= bx <= 20_000_000_000,
        0 <= by <= 20_000_000_000,
        v_sub(bx, off) >= 0,
        v_sub(by, off) >= 0,
        raw_in_range(px),
        raw_in_range(py),
    ensures
        ({
            let w = walls_v(
                px,
                py,
                vx,
                vy,
                rv,
                radius,
                stx,
                sty,
                visx,
                visy,
                smx,
                smy,
                bounciness,
                weight,
                friction,
                off,
                bx,
                by,
                l0,
                l1,
            );
            &&& -v_sub(bx, off) <= w.0 <= v_sub(bx, off)
            &&& -v_sub(by, off) <= w.1 <= v_sub(by, off)
        }),
{
    let small = SMALL_DISTANCE as int;
    let bound_y = v_sub(by, off);
    let d_floor = v_sub(bound_y, py);
    let d_ceil = v_sub(v_add(py, by), off);
    if d_ceil <= small {
        assert(v_add(v_neg(by), off) == -bound_y);
    } else if d_floor <= small {
    } else {
        assert(py < bound_y);
        assert(py > -bound_y) by {
            let a = v_add(py, by);
            if a == py + by {
                assert(v_sub(a, off) > small);
            } else {
                assert(a == i64::MAX as int);
                assert(py > i64::MAX as int - by);
            }
        }
    }
    let bound_x = v_sub(bx, off);
    let d_right = v_sub(bound_x, px);
    let d_left = v_sub(v_add(px, bx), off);
    if d_left <= small {
        assert(v_add(v_neg(bx), off) == -bound_x);
    } else if d_right <= small {
    } else {
        assert(px < bound_x);
        assert(px > -bound_x) by {
            let a = v_add(px, bx);
            if a == px + bx {
                assert(v_sub(a, off) > small);
            } else {
                assert(a == i64::MAX as int);
                assert(px > i64::MAX as int - bx);
            }
        }
    }
}

/// Energy bound at a bounce off a positive-axis wall (floor or right
/// wall): when the ball moves into the wall, the reflected normal speed
/// never exceeds the incident speed scaled by the bounciness, plus the
/// magnitude of the container's own velocity on that axis.
pub proof fn lemma_bounce_energy(v: int, bounciness: int, box_v: int)
    requires
        0 <= bounciness <= FX_SCALE as int,
        0 <= v,
        raw_in_range(v),
        raw_in_range(box_v),
    ensures
        iabs(v_min(v, v_sub(v_mul(v_neg(v), bounciness), box_v))) <= tdiv(
            v * bounciness,
            FX_SCALE as int,
        ) + iabs(box_v),
        tdiv(v * bounciness, FX_SCALE as int) <= v,
{
    let s = FX_SCALE as int;
    let t = tdiv(v * bounciness, s);
    crate::fx::lemma_scaled_fraction(v, bounciness, s);
    assert(v * bounciness == bounciness * v) by (nonlinear_arith);
    assert(0 <= t <= v);
    assert((-v) * bounciness == -(v * bounciness)) by (nonlinear_arith);
    assert(tdiv((-v) * bounciness, s) == -t);
    assert(v_mul(v_neg(v), bounciness) == -t);
    let refl = v_sub(-t, box_v);
    lemma_sat64_mag(-t - box_v);
    assert(iabs(refl) <= t + iabs(box_v));
    if refl <= v {
        assert(v_min(v, refl) == refl);
    } else {
        assert(v_min(v, refl) == v);
        assert(iabs(v) == v <= refl <= iabs(refl));
    }
}

/// Energy bound at a bounce off a negative-axis wall (ceiling or left
/// wall), the mirror image of [`lemma_bounce_energy`].
pub proof fn lemma_bounce_energy_inverted(v: int, bounciness: int, box_v: int)
    requires
        0 <= bounciness <= FX_SCALE as int,
        -(i64::MAX as int) <= v <= 0,
        raw_in_range(box_v),
    ensures
        iabs(v_max(v, v_sub(v_mul(v_neg(v), bounciness), box_v))) <= tdiv(
            (-v) * bounciness,
            FX_SCALE as int,
        ) + iabs(box_v),
        tdiv((-v) * bounciness, FX_SCALE as int) <= -v,
{
    let s = FX_SCALE as int;
    let t = tdiv((-v) * bounciness, s);
    crate::fx::lemma_scaled_fraction(-v, bounciness, s);
    assert((-v) * bounciness == bounciness * (-v)) by (nonlinear_arith);
    assert(0 <= t <= -v);
    assert(v_mul(v_neg(v), bounciness) == t);
    let refl = v_sub(t, box_v);
    lemma_sat64_mag(t - box_v);
    assert(iabs(refl) <= t + iabs(box_v));
    if refl >= v {
        assert(v_max(v, refl) == refl);
    } else {
        assert(v_max(v, refl) == v);
        assert(iabs(v) == -v <= -refl <= iabs(refl));
    }
}

/// The guard that prevents a double bounce. With only the floor within
/// tolerance: when the hit history is free of the floor, the wall phase
/// reflects the normal velocity and marks the floor as this sub-step's
/// contact; when the history already carries the floor, the normal
/// velocity passes through untouched and only spin is exchanged. A
/// sub-step that marks the floor passes that mark into the next
/// sub-step's history, so the reflection fires at most once across
/// consecutive sub-steps of one physical contact.
pub proof fn lemma_no_double_bounce(
    px: int,
    py: int,
    vx: int,
    vy: int,
    rv: int,
    radius: int,
    stx: int,
    sty: int,
    visx: int,
    visy: int,
    smx: int,
    smy: int,
    bounciness: int,
    weight: int,
    friction: int,
    off: int,
    bx: int,
    by: int,
    l0: int,
    l1: int,
)
    requires
        v_sub(v_sub(by, off), py) <= SMALL_DISTANCE as int,
        v_sub(v_add(py, by), off) > SMALL_DISTANCE as int,
        v_sub(v_sub(bx, off), px) > SMALL_DISTANCE as int,
        v_sub(v_add(px, bx), off) > SMALL_DISTANCE as int,
    ensures
        ({
            let w = walls_v(
                px,
                py,
                vx,
                vy,
                rv,
                radius,
                stx,
                sty,
                visx,
                visy,
                smx,
                smy,
                bounciness,
                weight,
                friction,
                off,
                bx,
                by,
                l0,
                l1,
            );
            &&& (l0 != 1 && l1 != 1) ==> w.3 == v_min(
                vy,
                v_sub(v_mul(v_neg(vy), bounciness), smy),
            ) && w.5 == 1
            &&& (l0 == 1 || l1 == 1) ==> w.3 == vy && w.5 == l0
        }),
{
}

/// Energy bound read off the wall phase itself: with only the floor
/// within tolerance, a contact not yet in the history reflects the
/// vertical velocity to at most the incident speed scaled by the
/// bounciness, plus the magnitude of the container's vertical velocity.
pub proof fn lemma_floor_bounce_energy(
    px: int,
    py: int,
    vx: int,
    vy: int,
    rv: int,
    radius: int,
    stx: int,
    sty: int,
    visx: int,
    visy: int,
    smx: int,
    smy: int,
    bounciness: int,
    weight: int,
    friction: int,
    off: int,
    bx: int,
    by: int,
    l0: int,
    l1: int,
)
    requires
        v_sub(v_sub(by, off), py) <= SMALL_DISTANCE as int,
        v_sub(v_add(py, by), off) > SMALL_DISTANCE as int,
        v_sub(v_sub(bx, off), px) > SMALL_DISTANCE as int,
        v_sub(v_add(px, bx), off) > SMALL_DISTANCE as int,
        l0 != 1,
        l1 != 1,
        0 <= bounciness <= FX_SCALE as int,
        0 <= vy,
        raw_in_range(vy),
        raw_in_range(smy),
    ensures
        iabs(
            walls_v(
                px,
                py,
                vx,
                vy,
                rv,
                radius,
                stx,
                sty,
                visx,
                visy,
                smx,
                smy,
                bounciness,
                weight,
                friction,
                off,
                bx,
                by,
                l0,
                l1,
            ).3,
        ) <= tdiv(vy * bounciness, FX_SCALE as int) + iabs(smy),
{
    lemma_no_double_bounce(
        px,
        py,
        vx,
        vy,
        rv,
        radius,
        stx,
        sty,
        visx,
        visy,
        smx,
        smy,
        bounciness,
        weight,
        friction,
        off,
        bx,
        by,
        l0,
        l1,
    );
    lemma_bounce_energy(vy, bounciness, smy);
}

} // verus!
