//! The two-slot history of recently resolved wall contacts.
//!
//! Each sub-step rotates the history and then records at most one newly
//! resolved wall in the fresh slot. A wall already present in either slot
//! is treated as an ongoing contact: it still exchanges spin, but its
//! normal reflection is suppressed, so one physical contact bounces once
//! even when it spans several sub-steps.

use vstd::prelude::*;

verus! {

/// No wall.
pub const WALL_NONE: u8 = 0;

/// The floor (positive y plane).
pub const WALL_FLOOR: u8 = 1;

/// The ceiling (negative y plane).
pub const WALL_CEILING: u8 = 2;

/// The right wall (positive x plane).
pub const WALL_RIGHT: u8 = 3;

/// The left wall (negative x plane).
pub const WALL_LEFT: u8 = 4;

/// Which wall was resolved in each of the two most recent sub-steps.
#[derive(Clone, Copy, PartialEq, Eq, Structural, Debug)]
pub struct WallHits {
    /// The wall recorded by the current sub-step.
    pub latest: u8,
    /// The wall recorded by the sub-step before it.
    pub previous: u8,
}

impl WallHits {
    /// A history with no contact on record.
    pub fn new() -> (r: WallHits)
        ensures
            r.latest == WALL_NONE && r.previous == WALL_NONE,
    {
        WallHits { latest: WALL_NONE, previous: WALL_NONE }
    }

    /// Swap the two slots: the start of a sub-step ages the record.
    pub fn rotate(&mut self)
        ensures
            final(self).latest == old(self).previous,
            final(self).previous == old(self).latest,
    {
        let temp: u8 = self.latest;
        self.latest = self.previous;
        self.previous = temp;
    }

    /// Whether either slot holds the given wall.
    pub fn contains(&self, wall: u8) -> (r: bool)
        ensures
            r == (self.latest == wall || self.previous == wall),
    {
        self.latest == wall || self.previous == wall
    }
}

} // verus!
