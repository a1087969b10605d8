//! Physics core for a ball bouncing inside a moving, axis-aligned
//! rectangular container.
//!
//! The simulation works in micro-units: every physical quantity (positions
//! in pixels, velocities in pixels per second, times in seconds, plain
//! coefficients) is carried as a signed 64-bit count of millionths in the
//! [`fx::Fx`] fixed-point type, so each step of the simulation is exact
//! integer arithmetic with saturation at the representable range.
//!
//! Modules, leaf first:
//! - [`fx`]: the saturating fixed-point scalar and its arithmetic.
//! - [`vec2`]: two-component vectors of [`fx::Fx`].
//! - [`loop_array`]: a fixed-capacity ring that overwrites its oldest entry.
//! - [`settings`]: the read-only tuning snapshot one step works from.
//! - [`bounce`]: the pure bounce/spin exchange at a wall.
//! - [`wall_hits`]: the two-slot history of recently resolved walls.
//! - [`ball`]: the ball state and the single-sub-step integrator.
//! - [`scheduler`]: the per-frame loop that feeds sub-steps to the ball.
//! - [`smoother`]: the critically damped filter for window-drag input.
//! - [`delay`]: the bounded ring of recent drag deltas replayed with a lag.

pub mod fx;
pub mod vec2;
pub mod loop_array;
pub mod settings;
pub mod bounce;
pub mod wall_hits;
pub mod ball;
pub mod scheduler;
pub mod smoother;
pub mod delay;









