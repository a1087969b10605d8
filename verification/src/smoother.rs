//! The critically damped filter that turns raw per-frame window drags
//! into a usable velocity signal.
//!
//! The filter keeps an internal velocity accumulator and relaxes the
//! driven value toward its target as fast as possible without
//! oscillation. The decaying exponential is evaluated through a rational
//! approximation, which is exact arithmetic here.

use vstd::prelude::*;
use crate::fx::{
    Fx, FX_SCALE, iabs, sat64, tdiv, v_add, v_sub, v_mul, v_div, v_min, v_max, lemma_tdiv_mag,
    lemma_sat64_mag, lemma_v_mul_mag,
};
use crate::vec2::Vec2;

verus! {

/// Model of the filter's decay factor: the rational approximation of
/// `e^(-x)` as `1 / (1 + x + 0.48 x^2 + 0.235 x^3)`, on raw counts.
pub open spec fn smoother_exp_v(x: int) -> int {
    let s = FX_SCALE as int;
    let c2 = v_mul(v_mul(480_000, x), x);
    let c3 = v_mul(v_mul(v_mul(235_000, x), x), x);
    v_div(s, v_add(v_add(v_add(s, x), c2), c3))
}

/// Model of one axis' new filter velocity, on raw counts. A zero
/// `smoothness` bypasses the filter: the velocity becomes the plain
/// difference quotient (left unchanged over an empty time slice).
pub open spec fn smooth_velocity_v(
    current: int,
    target: int,
    velocity: int,
    smoothness: int,
    dt: int,
) -> int {
    if smoothness == 0 {
        if dt != 0 {
            v_div(v_sub(target, current), dt)
        } else {
            velocity
        }
    } else {
        let omega = v_div(2 * (FX_SCALE as int), smoothness);
        let x = v_mul(omega, dt);
        let exp = smoother_exp_v(x);
        let delta = v_sub(current, target);
        let temp = v_mul(v_add(velocity, v_mul(omega, delta)), dt);
        v_mul(v_sub(velocity, v_mul(omega, temp)), exp)
    }
}

/// Model of one axis' smoothed value, on raw counts. A zero
/// `smoothness` hands the target through unfiltered.
pub open spec fn smooth_position_v(
    current: int,
    target: int,
    velocity: int,
    smoothness: int,
    dt: int,
) -> int {
    if smoothness == 0 {
        target
    } else {
        let omega = v_div(2 * (FX_SCALE as int), smoothness);
        let x = v_mul(omega, dt);
        let exp = smoother_exp_v(x);
        let delta = v_sub(current, target);
        let temp = v_mul(v_add(velocity, v_mul(omega, delta)), dt);
        v_add(target, v_mul(v_add(delta, temp), exp))
    }
}

/// One axis of the critically damped filter.
///
/// Returns `(new_velocity, smoothed_value)`.
fn smooth_axis(current: Fx, target: Fx, velocity: Fx, smoothness: Fx, dt: Fx) -> (r: (Fx, Fx))
    requires
        smoothness.raw > 0,
        dt.raw >= 0,
    ensures
        r.0.raw as int == smooth_velocity_v(
            current.raw as int,
            target.raw as int,
            velocity.raw as int,
            smoothness.raw as int,
            dt.raw as int,
        ),
        r.1.raw as int == smooth_position_v(
            current.raw as int,
            target.raw as int,
            velocity.raw as int,
            smoothness.raw as int,
            dt.raw as int,
        ),
{
    let one: Fx = Fx { raw: FX_SCALE };
    let omega: Fx = Fx::from_units(2).div(smoothness);
    proof {
        lemma_tdiv_mag(2 * (FX_SCALE as int) * (FX_SCALE as int), smoothness.raw as int);
        lemma_sat64_mag(tdiv(2 * (FX_SCALE as int) * (FX_SCALE as int), smoothness.raw as int));
        assert(omega.raw >= 0);
        lemma_v_mul_mag(omega.raw as int, dt.raw as int);
    }
    let x: Fx = omega.mul(dt);
    proof {
        lemma_v_mul_mag(480_000, x.raw as int);
        lemma_v_mul_mag(v_mul(480_000, x.raw as int), x.raw as int);
        lemma_v_mul_mag(235_000, x.raw as int);
        lemma_v_mul_mag(v_mul(235_000, x.raw as int), x.raw as int);
        lemma_v_mul_mag(v_mul(v_mul(235_000, x.raw as int), x.raw as int), x.raw as int);
    }
    let c2: Fx = Fx { raw: 480_000 }.mul(x).mul(x);
    let c3: Fx = Fx { raw: 235_000 }.mul(x).mul(x).mul(x);
    let denom: Fx = one.add(x).add(c2).add(c3);
    let exp: Fx = one.div(denom);
    let delta: Fx = current.sub(target);
    let temp: Fx = velocity.add(omega.mul(delta)).mul(dt);
    let new_velocity: Fx = velocity.sub(omega.mul(temp)).mul(exp);
    let smoothed: Fx = target.add(delta.add(temp).mul(exp));
    (new_velocity, smoothed)
}

/// Critically damped smoothing of a dragged value toward its target,
/// both axes at once, with the filter velocity threaded through
/// `velocity`. A zero `smoothness` bypasses the filter: the velocity
/// becomes the plain difference quotient and the target is returned.
pub fn smooth_vec2_critically_damped(
    current: Vec2,
    new: Vec2,
    velocity: &mut Vec2,
    smoothness: Fx,
    delta_time: Fx,
) -> (r: Vec2)
    requires
        smoothness.raw >= 0,
        delta_time.raw >= 0,
    ensures
        final(velocity).x.raw as int == smooth_velocity_v(
            current.x.raw as int,
            new.x.raw as int,
            old(velocity).x.raw as int,
            smoothness.raw as int,
            delta_time.raw as int,
        ),
        final(velocity).y.raw as int == smooth_velocity_v(
            current.y.raw as int,
            new.y.raw as int,
            old(velocity).y.raw as int,
            smoothness.raw as int,
            delta_time.raw as int,
        ),
        r.x.raw as int == smooth_position_v(
            current.x.raw as int,
            new.x.raw as int,
            old(velocity).x.raw as int,
            smoothness.raw as int,
            delta_time.raw as int,
        ),
        r.y.raw as int == smooth_position_v(
            current.y.raw as int,
            new.y.raw as int,
            old(velocity).y.raw as int,
            smoothness.raw as int,
            delta_time.raw as int,
        ),
{
    if smoothness.raw == 0 {
        if delta_time.raw != 0 {
            *velocity = Vec2::new(
                new.x.sub(current.x).div(delta_time),
                new.y.sub(current.y).div(delta_time),
            );
        }
        return new;
    }
    let ax: (Fx, Fx) = smooth_axis(current.x, new.x, velocity.x, smoothness, delta_time);
    let ay: (Fx, Fx) = smooth_axis(current.y, new.y, velocity.y, smoothness, delta_time);
    *velocity = Vec2::new(ax.0, ay.0);
    Vec2::new(ax.1, ay.1)
}

/// Smoother idempotence at rest: when the dragged value already sits on
/// its target (a run of zero deltas), one filter call strictly shrinks a
/// nonzero filter velocity and leaves a zero one at exactly zero — so
/// repeated calls drive the velocity to exactly zero and keep it there.
///
/// Holds whenever the damping rate resolves the time step: the product
/// `omega * dt` must round to at least one raw count and stay within two
/// whole units.
#[verifier::rlimit(100)]
pub proof fn lemma_smoother_settles_at_rest(
    current: int,
    velocity: int,
    smoothness: int,
    dt: int,
)
    requires
        smoothness > 0,
        dt >= 0,
        i64::MIN as int <= velocity <= i64::MAX as int,
        i64::MIN as int <= smoothness <= i64::MAX as int,
        i64::MIN as int <= dt <= i64::MAX as int,
        1 <= v_mul(v_div(2 * (FX_SCALE as int), smoothness), dt) <= 2 * (FX_SCALE as int),
    ensures
        velocity == 0 ==> smooth_velocity_v(current, current, velocity, smoothness, dt) == 0,
        velocity != 0 ==> iabs(
            smooth_velocity_v(current, current, velocity, smoothness, dt),
        ) < iabs(velocity),
{
    let s = FX_SCALE as int;
    let omega = v_div(2 * s, smoothness);
    let x = v_mul(omega, dt);
    let exp = smoother_exp_v(x);
    let delta = v_sub(current, current);
    assert(delta == 0);
    lemma_tdiv_mag(2 * s * s, smoothness);
    lemma_sat64_mag(tdiv(2 * s * s, smoothness));
    assert(omega >= 0);
    assert(v_mul(omega, 0) == 0);
    let temp = v_mul(velocity, dt);
    assert(v_mul(v_add(velocity, 0), dt) == temp);
    let w = v_mul(omega, temp);
    let u = v_sub(velocity, w);
    let result = v_mul(u, exp);
    assert(smooth_velocity_v(current, current, velocity, smoothness, dt) == result);

    // The decay factor is a true fraction: 0 <= exp, and exp * (s + x) <= s * s.
    let c2 = v_mul(v_mul(480_000, x), x);
    let c3 = v_mul(v_mul(v_mul(235_000, x), x), x);
    lemma_v_mul_mag(480_000, x);
    lemma_v_mul_mag(v_mul(480_000, x), x);
    lemma_v_mul_mag(235_000, x);
    lemma_v_mul_mag(v_mul(235_000, x), x);
    lemma_v_mul_mag(v_mul(v_mul(235_000, x), x), x);
    assert(c2 >= 0 && c3 >= 0);
    let denom = v_add(v_add(v_add(s, x), c2), c3);
    assert(denom >= s + x);
    assert(exp == sat64(tdiv(s * s, denom)));
    lemma_tdiv_mag(s * s, denom);
    lemma_sat64_mag(tdiv(s * s, denom));
    assert(0 <= exp);
    assert(exp <= (s * s) / denom);
    vstd::arithmetic::div_mod::lemma_div_is_ordered_by_denominator(s * s, s + x, denom);
    assert(exp <= (s * s) / (s + x));
    let cap = (s * s) / (s + x);
    vstd::arithmetic::div_mod::lemma_fundamental_div_mod(s * s, s + x);
    assert(cap * (s + x) <= s * s) by (nonlinear_arith)
        requires
            s * s == (s + x) * cap + (s * s) % (s + x),
            0 <= (s * s) % (s + x),
    ;
    assert(exp * (s + x) <= s * s) by (nonlinear_arith)
        requires
            0 <= exp <= cap,
            cap * (s + x) <= s * s,
            s + x > 0,
    ;

    if velocity == 0 {
        assert(velocity * dt == 0) by (nonlinear_arith)
            requires
                velocity == 0,
        ;
        assert(tdiv(0, s) == 0);
        assert(temp == 0);
        assert(omega * temp == 0) by (nonlinear_arith)
            requires
                temp == 0,
        ;
        assert(w == 0);
        assert(u == 0);
        assert(u * exp == 0) by (nonlinear_arith)
            requires
                u == 0,
        ;
        assert(result == 0);
    } else {
        let mv = iabs(velocity);
        // |temp| * s <= |velocity| * dt.
        lemma_v_mul_mag(velocity, dt);
        let mt = iabs(temp);
        assert(iabs(velocity * dt) == mv * dt) by (nonlinear_arith)
            requires
                dt >= 0,
                mv == iabs(velocity),
                iabs(velocity * dt) == if velocity * dt >= 0 {
                    velocity * dt
                } else {
                    -(velocity * dt)
                },
                velocity == mv || velocity == -mv,
        ;
        assert(mt * s <= mv * dt);
        // |w| * s <= omega * |temp|.
        lemma_v_mul_mag(omega, temp);
        let mw = iabs(w);
        assert(iabs(omega * temp) == omega * mt) by (nonlinear_arith)
            requires
                omega >= 0,
                mt == iabs(temp),
                iabs(omega * temp) == if omega * temp >= 0 {
                    omega * temp
                } else {
                    -(omega * temp)
                },
                temp == mt || temp == -mt,
        ;
        assert(mw * s <= omega * mt);
        // w carries the sign of velocity (or is zero).
        lemma_tdiv_mag(velocity * dt, s);
        lemma_sat64_mag(tdiv(velocity * dt, s));
        lemma_tdiv_mag(omega * temp, s);
        lemma_sat64_mag(tdiv(omega * temp, s));
        assert(velocity > 0 ==> temp >= 0 && w >= 0) by {
            assert(velocity > 0 ==> velocity * dt >= 0) by (nonlinear_arith)
                requires
                    dt >= 0,
            ;
            assert(temp >= 0 ==> omega * temp >= 0) by (nonlinear_arith)
                requires
                    omega >= 0,
            ;
        }
        assert(velocity < 0 ==> temp <= 0 && w <= 0) by {
            assert(velocity < 0 ==> velocity * dt <= 0) by (nonlinear_arith)
                requires
                    dt >= 0,
            ;
            assert(temp <= 0 ==> omega * temp <= 0) by (nonlinear_arith)
                requires
                    omega >= 0,
            ;
        }
        let mu = iabs(u);
        let mr = iabs(result);
        lemma_v_mul_mag(u, exp);
        assert(iabs(u * exp) == mu * exp) by (nonlinear_arith)
            requires
                exp >= 0,
                mu == iabs(u),
                iabs(u * exp) == if u * exp >= 0 {
                    u * exp
                } else {
                    -(u * exp)
                },
                u == mu || u == -mu,
        ;
        assert(mr * s <= mu * exp);
        if mw <= mv {
            // Same sign and no overshoot: |u| = |velocity| - |w|.
            assert(u == velocity - w);
            assert(mu <= mv);
            // mr * s * (s + x) <= mv * exp * (s + x) <= mv * s * s, and x >= 1.
            assert(mr < mv) by (nonlinear_arith)
                requires
                    mr * s <= mu * exp,
                    mu <= mv,
                    exp * (s + x) <= s * s,
                    0 <= exp,
                    0 <= mu,
                    0 <= mr,
                    1 <= mv,
                    s == 1_000_000,
                    1 <= x,
            ;
        } else {
            // Overshoot: |u| = |w| - |velocity|, and |w| < mv * (x + 1) / s.
            assert(u == velocity - w);
            assert(mu == mw - mv);
            // omega * dt bounds x from below: omega * dt < (x + 1) * s.
            let m = omega * dt;
            assert(m >= 0) by (nonlinear_arith)
                requires
                    m == omega * dt,
                    omega >= 0,
                    dt >= 0,
            ;
            lemma_tdiv_mag(m, s);
            lemma_sat64_mag(tdiv(m, s));
            assert(x == sat64(tdiv(m, s)));
            assert(m < (x + 1) * s) by (nonlinear_arith)
                requires
                    x == tdiv(m, s),
                    m >= 0,
                    iabs(m) < (iabs(tdiv(m, s)) + 1) * s,
                    iabs(m) == m,
                    iabs(tdiv(m, s)) == tdiv(m, s),
                    tdiv(m, s) >= 0,
            ;
            // mw * s * s <= omega * mt * s <= omega * mv * dt = m * mv < (x+1) * s * mv.
            assert(mw * s * s < (x + 1) * s * mv) by (nonlinear_arith)
                requires
                    mw * s <= omega * mt,
                    mt * s <= mv * dt,
                    omega >= 0,
                    dt >= 0,
                    mv >= 1,
                    mt >= 0,
                    mw >= 0,
                    s > 0,
                    m == omega * dt,
                    m < (x + 1) * s,
            ;
            assert(mr < mv) by (nonlinear_arith)
                requires
                    mr * s <= mu * exp,
                    mu == mw - mv,
                    mw * s * s < (x + 1) * s * mv,
                    exp * (s + x) <= s * s,
                    0 <= exp,
                    0 <= mr,
                    1 <= mv,
                    mv < mw,
                    s == 1_000_000,
                    1 <= x <= 2 * s,
            ;
        }
    }
}

/// Model of one axis of [`apply_quick_turn`] on raw counts.
pub open spec fn quick_turn_axis_v(velocity: int, mouse: int, window: int) -> int {
    if mouse > window {
        v_max(velocity, 0)
    } else if mouse < window {
        v_min(velocity, 0)
    } else {
        velocity
    }
}

/// A quick turn: when the cursor has already passed the window on an
/// axis, any filter velocity still pointing the old way is zeroed, so
/// the window never keeps sliding against a reversed drag.
pub fn apply_quick_turn(window_velocity: Vec2, offset_mouse: Vec2, window_position: Vec2) -> (r:
    Vec2)
    ensures
        r.x.raw as int == quick_turn_axis_v(
            window_velocity.x.raw as int,
            offset_mouse.x.raw as int,
            window_position.x.raw as int,
        ),
        r.y.raw as int == quick_turn_axis_v(
            window_velocity.y.raw as int,
            offset_mouse.y.raw as int,
            window_position.y.raw as int,
        ),
{
    let zero: Fx = Fx { raw: 0 };
    let x: Fx = if offset_mouse.x.raw > window_position.x.raw {
        window_velocity.x.max(zero)
    } else if offset_mouse.x.raw < window_position.x.raw {
        window_velocity.x.min(zero)
    } else {
        window_velocity.x
    };
    let y: Fx = if offset_mouse.y.raw > window_position.y.raw {
        window_velocity.y.max(zero)
    } else if offset_mouse.y.raw < window_position.y.raw {
        window_velocity.y.min(zero)
    } else {
        window_velocity.y
    };
    Vec2::new(x, y)
}

} // verus!
