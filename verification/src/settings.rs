//! The read-only tuning snapshot the physics core works from.

use vstd::prelude::*;
use crate::fx::{Fx, FX_SCALE};

verus! {

/// Tuning values for one physics step, in micro-units. The surrounding
/// application owns persistence and editing; a step only reads them.
#[derive(Clone, Copy, PartialEq, Eq, Structural, Debug)]
pub struct Settings {
    /// Volume saturation rate of the impact loudness curve (0..1).
    pub hit_density: Fx,
    /// Impacts slower than this on both axes make no sound (units/sec).
    pub min_hit_speed: Fx,
    /// Downward acceleration, in thousands of units/sec^2 (-30..30).
    pub gravity_strength: Fx,
    /// Exponential velocity decay per second (0..1).
    pub air_friction: Fx,
    /// Speed cap, in thousands of units/sec (0..500).
    pub max_velocity: Fx,
    /// Kept fraction of the normal speed at a bounce (0..1).
    pub ball_bounciness: Fx,
    /// Ball radius in whole units.
    pub ball_radius: u32,
    /// How much the ball's spin resists change at a graze (0..1).
    pub ball_weight: Fx,
    /// How strongly wall contact couples spin and tangential motion (0..1).
    pub ball_friction: Fx,
    /// Container width in whole units.
    pub box_width: u32,
    /// Container height in whole units.
    pub box_height: u32,
    /// Wall thickness in whole units.
    pub box_thickness: u32,
    /// Wall depth in whole units.
    pub box_depth: u32,
    /// How many recent drag deltas the delay ring replays (0..10).
    pub delay_frames: u32,
    /// Multiplier on the wall-clock frame time (0.1..3).
    pub speed_mul: Fx,
    /// Time constant of the drag smoothing filter; zero bypasses it (0..1).
    pub box_weight: Fx,
    /// Drive the window with the raw drag instead of the smoothed one.
    pub hide_smoothing: bool,
    /// Zero the filter velocity when the drag reverses direction.
    pub quick_turn: bool,
}

impl Settings {
    /// The ranges the tuning sliders enforce, in micro-units; every
    /// snapshot handed to the core satisfies them.
    pub open spec fn wf(self) -> bool {
        &&& -30 * (FX_SCALE as int) <= self.gravity_strength.raw as int <= 30 * (FX_SCALE as int)
        &&& 0 <= self.air_friction.raw as int <= FX_SCALE as int
        &&& 0 <= self.max_velocity.raw as int <= 500 * (FX_SCALE as int)
        &&& 0 <= self.ball_bounciness.raw as int <= FX_SCALE as int
        &&& 0 <= self.ball_weight.raw as int <= FX_SCALE as int
        &&& 0 <= self.ball_friction.raw as int <= FX_SCALE as int
        &&& 0 <= self.min_hit_speed.raw as int <= 500 * (FX_SCALE as int)
        &&& 0 <= self.hit_density.raw as int <= FX_SCALE as int
        &&& 0 <= self.box_weight.raw as int <= FX_SCALE as int
        &&& 1 <= self.ball_radius <= 10000
        &&& self.box_width <= 10000
        &&& self.box_height <= 10000
        &&& 1 <= self.box_thickness <= 10000
        &&& 1 <= self.box_depth <= 10000
        &&& self.delay_frames <= 10
        &&& 0 <= self.speed_mul.raw as int <= 3 * (FX_SCALE as int)
    }
}

impl Settings {
    /// Whether any value the physics integration reads differs between
    /// the two snapshots.
    pub fn physics_changed(&self, compare: &Settings) -> (r: bool)
        ensures
            r == !(self.gravity_strength == compare.gravity_strength && self.air_friction
                == compare.air_friction && self.max_velocity == compare.max_velocity
                && self.ball_bounciness == compare.ball_bounciness && self.ball_weight
                == compare.ball_weight && self.ball_friction == compare.ball_friction),
    {
        self.gravity_strength.raw != compare.gravity_strength.raw || self.air_friction.raw
            != compare.air_friction.raw || self.max_velocity.raw != compare.max_velocity.raw
            || self.ball_bounciness.raw != compare.ball_bounciness.raw || self.ball_weight.raw
            != compare.ball_weight.raw || self.ball_friction.raw != compare.ball_friction.raw
    }

    /// Whether any value describing the container or its drag feel
    /// differs between the two snapshots.
    pub fn box_changed(&self, compare: &Settings) -> (r: bool)
        ensures
            r == !(self.box_weight == compare.box_weight && self.hide_smoothing
                == compare.hide_smoothing && self.quick_turn == compare.quick_turn
                && self.box_width == compare.box_width && self.box_height == compare.box_height
                && self.box_thickness == compare.box_thickness && self.box_depth
                == compare.box_depth),
    {
        self.box_weight.raw != compare.box_weight.raw || self.hide_smoothing
            != compare.hide_smoothing || self.quick_turn != compare.quick_turn || self.box_width
            != compare.box_width || self.box_height != compare.box_height || self.box_thickness
            != compare.box_thickness || self.box_depth != compare.box_depth
    }
}

impl Default for Settings {
    /// The stock tuning: a medium-bouncy, medium-weight ball in a
    /// 1280 x 960 unit container.
    fn default() -> (r: Settings)
        ensures
            r.wf(),
            r.hit_density.raw == 320_000,
            r.min_hit_speed.raw == 120_000_000,
            r.gravity_strength.raw == 3_000_000,
            r.air_friction.raw == 170_000,
            r.max_velocity.raw == 100_000_000,
            r.ball_bounciness.raw == 900_000,
            r.ball_radius == 90,
            r.ball_weight.raw == 650_000,
            r.ball_friction.raw == 750_000,
            r.box_width == 640,
            r.box_height == 480,
            r.box_thickness == 20,
            r.box_depth == 20,
            r.delay_frames == 0,
            r.speed_mul.raw == 1_000_000,
            r.box_weight.raw == 40_000,
            r.hide_smoothing == true,
            r.quick_turn == true,
    {
        Settings {
            hit_density: Fx { raw: 320_000 },
            min_hit_speed: Fx { raw: 120_000_000 },
            gravity_strength: Fx { raw: 3_000_000 },
            air_friction: Fx { raw: 170_000 },
            max_velocity: Fx { raw: 100_000_000 },
            ball_bounciness: Fx { raw: 900_000 },
            ball_radius: 90,
            ball_weight: Fx { raw: 650_000 },
            ball_friction: Fx { raw: 750_000 },
            box_width: 640,
            box_height: 480,
            box_thickness: 20,
            box_depth: 20,
            delay_frames: 0,
            speed_mul: Fx { raw: 1_000_000 },
            box_weight: Fx { raw: 40_000 },
            hide_smoothing: true,
            quick_turn: true,
        }
    }
}

} // verus!
