//! The per-frame loop that feeds sub-steps to the ball until the frame's
//! time is exhausted or the iteration cap is reached.

use vstd::prelude::*;
use crate::fx::Fx;
use crate::vec2::Vec2;
use crate::settings::Settings;
use crate::ball::{Ball, Impact, wall_offset_v, contained_v};
use crate::wall_hits::WallHits;

verus! {

/// Remaining time at or below this is dropped instead of simulated.
pub const MIN_REMAINING_DT: i64 = 10;

/// Hard cap on sub-steps per frame; time still unsimulated when it is
/// reached is dropped, a deliberate bounded-cost approximation.
pub const MAX_STEPS: usize = 10;

/// What one frame's scheduling pass did.
pub struct FrameResult {
    /// Time that was left unsimulated when the pass ended.
    pub remaining_dt: Fx,
    /// How many sub-steps ran.
    pub steps: usize,
    /// The remaining time before each sub-step, and after the last one:
    /// entry `i+1` is what sub-step `i` returned, so neighbouring
    /// differences are the simulated sub-step lengths.
    pub sub_dts: Vec<Fx>,
    /// Impact events the sub-steps emitted, in order.
    pub impacts: Vec<Impact>,
}

/// The sum of neighbouring differences over a trace of remaining times:
/// the total simulated time of the pass that produced the trace.
pub open spec fn consumed_sum_v(dts: Seq<int>) -> int
    decreases dts.len(),
{
    if dts.len() <= 1 {
        0
    } else {
        (dts[0] - dts[1]) + consumed_sum_v(dts.drop_first())
    }
}

/// Sub-step conservation: across one scheduling pass, the simulated
/// sub-step lengths sum to exactly the frame's time minus what was
/// still unsimulated when the pass ended — nothing is double-counted
/// and nothing disappears between sub-steps.
pub proof fn lemma_sub_step_conservation(dts: Seq<int>)
    requires
        dts.len() >= 1,
    ensures
        consumed_sum_v(dts) == dts[0] - dts[dts.len() - 1],
    decreases dts.len(),
{
    if dts.len() > 1 {
        lemma_sub_step_conservation(dts.drop_first());
    }
}

/// Run one frame: repeatedly hand the remaining time to [`Ball::step`]
/// until it is spent (down to [`MIN_REMAINING_DT`]) or [`MAX_STEPS`]
/// sub-steps have run, collecting the impact events on the way.
pub fn run_frame(
    ball: &mut Ball,
    dt: Fx,
    settings: &Settings,
    visual_box_velocity: Vec2,
    smoothed_box_velocity: Vec2,
    box_size: Vec2,
) -> (r: FrameResult)
    requires
        settings.wf(),
        dt.raw >= 0,
        0 <= old(ball).radius.raw <= 20_000_000_000,
        0 <= box_size.x.raw <= 20_000_000_000,
        0 <= box_size.y.raw <= 20_000_000_000,
    ensures
        r.steps <= MAX_STEPS,
        r.sub_dts@.len() == r.steps + 1,
        r.sub_dts@[0] == dt,
        r.sub_dts@.last() == r.remaining_dt,
        r.remaining_dt.raw <= MIN_REMAINING_DT || r.steps == MAX_STEPS,
        consumed_sum_v(r.sub_dts@.map_values(|f: Fx| f.raw as int)) == dt.raw
            - r.remaining_dt.raw,
        r.impacts@.len() <= r.steps,
        final(ball).radius == old(ball).radius,
        r.steps == 0 ==> *final(ball) == *old(ball) && r.remaining_dt == dt,
        ({
            let off = wall_offset_v(
                old(ball).radius.raw as int,
                settings.box_thickness as int,
                settings.box_depth as int,
            );
            r.steps > 0 && crate::fx::v_sub(box_size.x.raw as int, off) >= 0 && crate::fx::v_sub(
                box_size.y.raw as int,
                off,
            ) >= 0 ==> contained_v(
                final(ball).position.x.raw as int,
                final(ball).position.y.raw as int,
                off,
                box_size.x.raw as int,
                box_size.y.raw as int,
            )
        }),
{
    let ghost ball0: Ball = *old(ball);
    let mut state: Ball = *ball;
    let mut remaining: Fx = dt;
    let mut steps: usize = 0;
    let mut wall_hits: WallHits = WallHits::new();
    let mut sub_dts: Vec<Fx> = Vec::new();
    let mut impacts: Vec<Impact> = Vec::new();
    sub_dts.push(remaining);

    while remaining.raw > MIN_REMAINING_DT && steps < MAX_STEPS
        invariant
            settings.wf(),
            0 <= box_size.x.raw <= 20_000_000_000,
            0 <= box_size.y.raw <= 20_000_000_000,
            0 <= state.radius.raw <= 20_000_000_000,
            state.radius == ball0.radius,
            steps <= MAX_STEPS,
            sub_dts@.len() == steps + 1,
            sub_dts@[0] == dt,
            sub_dts@.last() == remaining,
            impacts@.len() <= steps,
            steps == 0 ==> state == ball0 && remaining == dt,
            ({
                let off = wall_offset_v(
                    ball0.radius.raw as int,
                    settings.box_thickness as int,
                    settings.box_depth as int,
                );
                steps > 0 && crate::fx::v_sub(box_size.x.raw as int, off) >= 0
                    && crate::fx::v_sub(box_size.y.raw as int, off) >= 0 ==> contained_v(
                    state.position.x.raw as int,
                    state.position.y.raw as int,
                    off,
                    box_size.x.raw as int,
                    box_size.y.raw as int,
                )
            }),
        decreases MAX_STEPS - steps,
    {
        steps = steps + 1;
        let outcome: (Fx, Option<Impact>) = state.step(
            remaining,
            settings,
            visual_box_velocity,
            smoothed_box_velocity,
            &mut wall_hits,
            box_size,
        );
        remaining = outcome.0;
        sub_dts.push(remaining);
        match outcome.1 {
            Some(impact) => impacts.push(impact),
            None => (),
        }
    }

    proof {
        let trace: Seq<int> = sub_dts@.map_values(|f: Fx| f.raw as int);
        lemma_sub_step_conservation(trace);
        assert(trace[0] == dt.raw as int);
        assert(trace[trace.len() - 1] == remaining.raw as int);
    }
    *ball = state;
    FrameResult { remaining_dt: remaining, steps, sub_dts, impacts }
}

} // verus!
