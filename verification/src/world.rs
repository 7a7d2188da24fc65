//! The window the game is played in, and the record every moving thing
//! shares.

use crate::fixed::{sat, sat_add, UNIT};
use vstd::prelude::*;

verus! {

/// Height of the window.
pub const WINDOW_HEIGHT: i64 = 500 * UNIT;

/// Width of the window.
pub const WINDOW_WIDTH: i64 = 1000 * UNIT;

/// The window's upper edge; the lower one is at `-TOP`.
pub const TOP: i64 = 250 * UNIT;

/// The window's right edge; the left one is at `-SIDE`.
pub const SIDE: i64 = 500 * UNIT;

/// The window's edges lie half its size from the centre.
pub proof fn lemma_edges()
    ensures
        TOP == WINDOW_HEIGHT / 2,
        SIDE == WINDOW_WIDTH / 2,
{
}

/// Position, velocity and scale of one moving thing. `i` is the vertical
/// axis (up is positive), `j` the horizontal one; the window's centre is
/// the origin.
#[derive(Clone, Copy, Debug, PartialEq, Eq, Structural)]
pub struct PhysicsBody {
    pub i: i64,
    pub j: i64,
    pub vel_i: i64,
    pub vel_j: i64,
    pub scale: i64,
}

impl PhysicsBody {
    /// A body has a positive scale.
    pub open spec fn wf(self) -> bool {
        self.scale > 0
    }

    /// Whether the body's position lies inside the window.
    pub open spec fn in_view(self) -> bool {
        &&& -TOP <= self.i <= TOP
        &&& -SIDE <= self.j <= SIDE
    }

    /// The body one tick later, moved by its velocity.
    pub open spec fn moved(self) -> PhysicsBody {
        PhysicsBody { i: sat(self.i + self.vel_i), j: sat(self.j + self.vel_j), ..self }
    }

    /// Tells whether the body's position lies inside the window.
    pub fn is_in_view(&self) -> (inside: bool)
        ensures
            inside == self.in_view(),
    {
        -TOP <= self.i && self.i <= TOP && -SIDE <= self.j && self.j <= SIDE
    }

    /// Moves the body by its velocity: one Euler step.
    pub fn integrate(&mut self)
        ensures
            *final(self) == old(self).moved(),
    {
        self.i = sat_add(self.i, self.vel_i);
        self.j = sat_add(self.j, self.vel_j);
    }
}

} // verus!
