//! Soccer demo: goal activation. A goal sits at a fixed spot on the pitch
//! and reports itself active while the ball is vertically close to it.
//!
//! Coordinates are micro-pixels (one pixel is 1_000_000 units).

use vstd::prelude::*;

verus! {

/// Horizontal centre of the level (half of the 1000-pixel level width).
pub const HALF_LEVEL_W: i64 = 500_000_000;
/// Full level height (1400 pixels).
pub const LEVEL_H: i64 = 1_400_000_000;
/// A goal is active while the ball is within 500 pixels of it on the y axis.
pub const GOAL_ACTIVE_DISTANCE: i64 = 500_000_000;

/// The ball, reduced to the position the goal check reads.
pub struct Ball {
    pub x: i64,
    pub y: i64,
}

/// A scoring target owned by one of the two teams, at a fixed position:
/// centred horizontally, on the top edge for team 0 and on the bottom edge
/// for team 1.
pub struct Goal {
    pub team: u8,
    pub x: i64,
    pub y: i64,
}

impl Goal {
    pub fn new(team: u8) -> (g: Goal)
        ensures
            g.team == team,
            g.x == HALF_LEVEL_W,
            g.y == if team == 0 { 0int } else { LEVEL_H as int },
    {
        let y: i64 = if team == 0 { 0 } else { LEVEL_H };
        Goal { team, x: HALF_LEVEL_W, y }
    }

    /// The goal is active iff the ball is within `GOAL_ACTIVE_DISTANCE` of it
    /// on the y axis. Pure predicate: nothing is mutated.
    pub fn active(&self, ball: &Ball) -> (r: bool)
        requires
            i64::MIN < ball.y - self.y < i64::MAX,
        ensures
            r == (abs_spec(ball.y - self.y) < GOAL_ACTIVE_DISTANCE),
    {
        let diff: i64 = if ball.y >= self.y {
            ball.y - self.y
        } else {
            self.y - ball.y
        };
        diff < GOAL_ACTIVE_DISTANCE
    }

    /// The owning side, for scoring attribution.
    pub fn team(&self) -> (t: u8)
        ensures
            t == self.team,
    {
        self.team
    }
}

/// Absolute value of a mathematical integer.
pub open spec fn abs_spec(v: int) -> int {
    if v >= 0 {
        v
    } else {
        -v
    }
}

} // verus!
