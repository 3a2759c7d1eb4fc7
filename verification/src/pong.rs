//! Pong demo: two paddles and a ball. Paddles move on held input and are
//! clamped to the screen; the ball integrates its position each tick,
//! reflects off the top and bottom walls and off paddle rectangles, and a
//! point is scored when it leaves the screen on the left or right.
//!
//! Coordinates are micro-pixels (one pixel is 1_000_000 units). A direction
//! component is a micro-fraction: 1_000_000 stands for 1.0, and a freshly
//! drawn component is uniform in [-1.0, 1.0).

use vstd::prelude::*;

use crate::rng::rand_in_range;

verus! {

/// Paddle width (20 pixels).
pub const PADDLE_W: i64 = 20_000_000;
/// Paddle height (80 pixels).
pub const PADDLE_H: i64 = 80_000_000;
/// Pixels a paddle moves per tick while a direction is held (10 pixels).
pub const PADDLE_SPEED: i64 = 10_000_000;
/// Ball radius (15 pixels).
pub const BALL_RADIUS: i64 = 15_000_000;
/// The ball advances by `direction * BALL_SPEED` each tick, so a direction
/// component of 1.0 moves it 12 pixels.
pub const BALL_SPEED: i64 = 12;
/// One unit, as a direction micro-fraction: a drawn component lies in
/// [-DIR_ONE, DIR_ONE).
pub const DIR_ONE: i64 = 1_000_000;

/// Bound under which every coordinate handled here stays, so that the
/// fixed-point sums below fit in an i64 (a billion pixels: far beyond any
/// screen).
pub const COORD_LIMIT: i64 = 1_000_000_000_000_000;
/// Bound on a direction component accepted by `move_ball` (a thousand
/// units; a drawn component is below one unit and reflection keeps the
/// magnitude).
pub const DIR_LIMIT: i64 = 1_000_000_000;

/// An axis-aligned rectangle: top-left corner, width and height.
#[derive(Clone, Copy, PartialEq, Eq, Structural, Debug)]
pub struct Rect {
    pub x: i64,
    pub y: i64,
    pub w: i64,
    pub h: i64,
}

/// Closed-interval overlap of two rectangles: rectangles that merely touch
/// on an edge count as overlapping, as the engine's intersection test has it.
pub open spec fn rects_overlap(a: Rect, b: Rect) -> bool {
    &&& a.x + a.w >= b.x
    &&& b.x + b.w >= a.x
    &&& a.y + a.h >= b.y
    &&& b.y + b.h >= a.y
}

/// All four fields of a rectangle are within `bound`.
pub open spec fn rect_within(r: Rect, bound: int) -> bool {
    &&& -bound <= r.x <= bound
    &&& -bound <= r.y <= bound
    &&& -bound <= r.w <= bound
    &&& -bound <= r.h <= bound
}

/// A paddle: its rectangle, moved by input each tick.
#[derive(Clone, Copy, PartialEq, Eq, Structural, Debug)]
pub struct Paddle {
    pub rect: Rect,
}

/// Where a held input moves a paddle's y before clamping: up takes priority
/// over down when both are held.
pub open spec fn moved_y_spec(y: int, up_held: bool, down_held: bool) -> int {
    if up_held {
        y - PADDLE_SPEED
    } else if down_held {
        y + PADDLE_SPEED
    } else {
        y
    }
}

/// The clamp applied after a paddle moves: first back under the bottom
/// bound, else up to the top bound.
pub open spec fn clamped_y_spec(y: int, screen_height: int) -> int {
    if y > screen_height - PADDLE_H {
        screen_height - PADDLE_H
    } else if y < 0 {
        0
    } else {
        y
    }
}

/// One movement tick of a paddle: move by held input, then clamp.
pub open spec fn movement_y_spec(y: int, up_held: bool, down_held: bool, screen_height: int) -> int {
    clamped_y_spec(moved_y_spec(y, up_held, down_held), screen_height)
}

/// The paddle's y after a whole sequence of held-direction inputs.
pub open spec fn movement_seq_y_spec(y: int, inputs: Seq<(bool, bool)>, screen_height: int) -> int
    decreases inputs.len(),
{
    if inputs.len() == 0 {
        y
    } else {
        movement_seq_y_spec(
            movement_y_spec(y, inputs[0].0, inputs[0].1, screen_height),
            inputs.drop_first(),
            screen_height,
        )
    }
}

/// Paddle clamp law: after any non-empty sequence of held-direction inputs,
/// the paddle's y lies within [0, screen_height - PADDLE_H], wherever it
/// started.
pub proof fn lemma_paddle_clamp(y: int, inputs: Seq<(bool, bool)>, screen_height: int)
    requires
        screen_height >= PADDLE_H,
        inputs.len() > 0,
    ensures
        0 <= movement_seq_y_spec(y, inputs, screen_height) <= screen_height - PADDLE_H,
    decreases inputs.len(),
{
    let y1 = movement_y_spec(y, inputs[0].0, inputs[0].1, screen_height);
    if inputs.len() > 1 {
        lemma_paddle_clamp(y1, inputs.drop_first(), screen_height);
    } else {
        assert(movement_seq_y_spec(y1, inputs.drop_first(), screen_height) == y1);
    }
}

impl Paddle {
    pub fn new(rect: Rect) -> (p: Paddle)
        ensures
            p.rect == rect,
    {
        Paddle { rect }
    }

    /// One input tick: if up is held move up by `PADDLE_SPEED`, else if down
    /// is held move down, then clamp y into [0, screen_height - PADDLE_H].
    pub fn movement(&mut self, up_held: bool, down_held: bool, screen_height: i64)
        requires
            rect_within(old(self).rect, COORD_LIMIT as int),
            0 <= screen_height <= COORD_LIMIT,
        ensures
            final(self).rect.y == movement_y_spec(
                old(self).rect.y as int,
                up_held,
                down_held,
                screen_height as int,
            ),
            final(self).rect.x == old(self).rect.x,
            final(self).rect.w == old(self).rect.w,
            final(self).rect.h == old(self).rect.h,
    {
        if up_held {
            self.rect.y = self.rect.y - PADDLE_SPEED;
        } else if down_held {
            self.rect.y = self.rect.y + PADDLE_SPEED;
        }

        if self.rect.y > screen_height - PADDLE_H {
            self.rect.y = screen_height - PADDLE_H;
        } else if self.rect.y < 0 {
            self.rect.y = 0;
        }
    }
}

/// The ball: centre position, radius, and a 2D direction in micro-fractions.
#[derive(Clone, Copy, PartialEq, Eq, Structural, Debug)]
pub struct Ball {
    pub x: i64,
    pub y: i64,
    pub r: i64,
    pub dir_x: i64,
    pub dir_y: i64,
}

/// The ball touches the top or bottom wall at this y: it left
/// [0, screen_height - radius].
pub open spec fn wall_contact(y: int, screen_height: int, r: int) -> bool {
    y > screen_height - r || y < 0
}

impl Ball {
    /// A ball at the given centre whose direction components are the given
    /// draws.
    pub fn with_direction(x: i64, y: i64, r: i64, dir_x: i64, dir_y: i64) -> (b: Ball)
        ensures
            b == (Ball { x, y, r, dir_x, dir_y }),
    {
        Ball { x, y, r, dir_x, dir_y }
    }

    /// A ball at the given centre with a freshly randomized direction: each
    /// component drawn uniformly from [-1.0, 1.0), rejecting no values, so a
    /// purely vertical or horizontal direction is allowed.
    pub fn new(x: i64, y: i64, r: i64) -> (b: Ball)
        ensures
            b.x == x,
            b.y == y,
            b.r == r,
            -DIR_ONE <= b.dir_x < DIR_ONE,
            -DIR_ONE <= b.dir_y < DIR_ONE,
    {
        let dir_x = rand_in_range(-DIR_ONE, DIR_ONE);
        let dir_y = rand_in_range(-DIR_ONE, DIR_ONE);
        Ball::with_direction(x, y, r, dir_x, dir_y)
    }

    /// One movement tick: position advances by `direction * BALL_SPEED`; if
    /// the new y has left [0, screen_height - radius], the y direction
    /// component flips sign, exactly once per contact.
    pub fn move_ball(&mut self, screen_height: i64)
        requires
            -COORD_LIMIT <= old(self).x <= COORD_LIMIT,
            -COORD_LIMIT <= old(self).y <= COORD_LIMIT,
            -DIR_LIMIT <= old(self).dir_x <= DIR_LIMIT,
            -DIR_LIMIT <= old(self).dir_y <= DIR_LIMIT,
            -COORD_LIMIT <= old(self).r <= COORD_LIMIT,
            0 <= screen_height <= COORD_LIMIT,
        ensures
            final(self).x == old(self).x + old(self).dir_x * BALL_SPEED,
            final(self).y == old(self).y + old(self).dir_y * BALL_SPEED,
            final(self).dir_y == if wall_contact(
                old(self).y + old(self).dir_y * BALL_SPEED,
                screen_height as int,
                old(self).r as int,
            ) {
                -old(self).dir_y as int
            } else {
                old(self).dir_y as int
            },
            final(self).dir_x == old(self).dir_x,
            final(self).r == old(self).r,
    {
        self.x = self.x + self.dir_x * BALL_SPEED;
        self.y = self.y + self.dir_y * BALL_SPEED;

        if self.y > screen_height - self.r || self.y < 0 {
            self.dir_y = -self.dir_y;
        }
    }

    /// Paddle contact: the ball, taken as an axis-aligned box anchored at
    /// its centre with its radius as both sides, is tested against both
    /// paddle rectangles; on overlap with either, the x direction component
    /// flips sign. No positional correction is applied.
    pub fn collision_with_paddle(&mut self, paddle_1: &Rect, paddle_2: &Rect)
        requires
            -COORD_LIMIT <= old(self).x <= COORD_LIMIT,
            -COORD_LIMIT <= old(self).y <= COORD_LIMIT,
            -COORD_LIMIT <= old(self).r <= COORD_LIMIT,
            -DIR_LIMIT <= old(self).dir_x <= DIR_LIMIT,
            rect_within(*paddle_1, COORD_LIMIT as int),
            rect_within(*paddle_2, COORD_LIMIT as int),
        ensures
            final(self).dir_x == if rects_overlap(old(self).ball_box(), *paddle_1)
                || rects_overlap(old(self).ball_box(), *paddle_2) {
                -old(self).dir_x as int
            } else {
                old(self).dir_x as int
            },
            final(self).x == old(self).x,
            final(self).y == old(self).y,
            final(self).r == old(self).r,
            final(self).dir_y == old(self).dir_y,
    {
        let ball_rect = Rect { x: self.x, y: self.y, w: self.r, h: self.r };
        if Self::overlaps(&ball_rect, paddle_1) || Self::overlaps(&ball_rect, paddle_2) {
            self.dir_x = -self.dir_x;
        }
    }

    /// The box the paddle-collision test uses for the ball.
    pub open spec fn ball_box(self) -> Rect {
        Rect { x: self.x, y: self.y, w: self.r, h: self.r }
    }

    fn overlaps(a: &Rect, b: &Rect) -> (r: bool)
        requires
            rect_within(*a, COORD_LIMIT as int),
            rect_within(*b, COORD_LIMIT as int),
        ensures
            r == rects_overlap(*a, *b),
    {
        a.x + a.w >= b.x && b.x + b.w >= a.x && a.y + a.h >= b.y && b.y + b.h >= a.y
    }
}

/// The per-tick scoring step: when the ball's x has left the screen on the
/// left, the right side scores a point; on the right, the left side scores;
/// either way the ball respawns at the screen centre with a freshly drawn
/// direction. Otherwise nothing changes.
pub fn update_score(ball: &mut Ball, scores: &mut (u32, u32), screen_width: i64, screen_height: i64)
    requires
        0 <= screen_width <= COORD_LIMIT,
        0 <= screen_height <= COORD_LIMIT,
        old(scores).0 < u32::MAX,
        old(scores).1 < u32::MAX,
    ensures
        old(ball).x < 0 ==> {
            &&& final(scores).1 == old(scores).1 + 1
            &&& final(scores).0 == old(scores).0
        },
        old(ball).x > screen_width ==> {
            &&& final(scores).0 == old(scores).0 + 1
            &&& final(scores).1 == old(scores).1
        },
        (old(ball).x < 0 || old(ball).x > screen_width) ==> {
            &&& final(ball).x == screen_width as int / 2
            &&& final(ball).y == screen_height as int / 2
            &&& final(ball).r == BALL_RADIUS
            &&& -DIR_ONE <= final(ball).dir_x < DIR_ONE
            &&& -DIR_ONE <= final(ball).dir_y < DIR_ONE
        },
        (0 <= old(ball).x <= screen_width) ==> {
            &&& *final(ball) == *old(ball)
            &&& *final(scores) == *old(scores)
        },
{
    if ball.x < 0 {
        *ball = Ball::new(screen_width / 2, screen_height / 2, BALL_RADIUS);
        scores.1 = scores.1 + 1;
    } else if ball.x > screen_width {
        *ball = Ball::new(screen_width / 2, screen_height / 2, BALL_RADIUS);
        scores.0 = scores.0 + 1;
    }
}

} // verus!
