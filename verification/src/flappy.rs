//! Flappy-bird demo: a bird pulled down by gravity and pushed up by jump
//! impulses, pipes that scroll leftward and recycle to the right, collision
//! and ground contact that end the run, and a score that grows exactly once
//! per pipe passed.
//!
//! Coordinates are micro-pixels (one pixel is 1_000_000 units), velocities
//! micro-pixels per second, rotations micro-radians, and time deltas
//! microseconds.

use vstd::prelude::*;

use crate::rng::rand_in_range;

verus! {

/// One micro-unit per whole unit.
pub const MICRO: i64 = 1_000_000;
/// Downward acceleration in pixels per second per second (9.8 times the
/// game's 150 scale).
pub const GRAVITY: i64 = 1470;
/// The bird's y never rises above this (260 pixels).
pub const MAX_BIRD_Y: i64 = 260_000_000;
/// Ground contact: half the ground's 112-pixel height above the ground line
/// at -250 pixels, plus half the bird's 24-pixel height.
pub const GROUND_COLLISION_Y: i64 = -182_000_000;
/// A jump sets the velocity to this fixed impulse (400 pixels per second).
pub const JUMP_VELOCITY: i64 = 400_000_000;
/// Rotation is the velocity in pixels per second divided by this.
pub const ROTATION_DIVISOR: i64 = 600;
/// Rotation is clamped to half a radian either way.
pub const MAX_ROTATION: i64 = 500_000;
/// Pipes and the ground scroll left at 150 pixels per second.
pub const SCROLL_SPEED: i64 = 150;
/// The background scrolls left at 20 pixels per second.
pub const BACKGROUND_SPEED: i64 = 20;
/// A recycled pipe reappears this far right of the rightmost pipe
/// (200 pixels).
pub const PIPE_SPACING: i64 = 200_000_000;
/// A pipe whose x falls below this is recycled: half the 800-pixel window
/// plus a 26-pixel margin left of the centre.
pub const PIPE_OFFSCREEN_X: i64 = -426_000_000;
/// Half the bird's 34-pixel width.
pub const HALF_BIRD_W: i64 = 17_000_000;
/// Half the bird's 24-pixel height.
pub const HALF_BIRD_H: i64 = 12_000_000;
/// Half a pipe's 52-pixel width.
pub const HALF_PIPE_W: i64 = 26_000_000;
/// Half a pipe's 320-pixel height.
pub const HALF_PIPE_H: i64 = 160_000_000;
/// The upper pipe of a pair sits this far above the lower one (450 pixels).
pub const PIPE_GAP: i64 = 450_000_000;
/// A fresh lower-pipe y is minus a draw from [PIPE_LOW_MIN, PIPE_LOW_MAX).
pub const PIPE_LOW_MIN: i64 = 70_000_000;
pub const PIPE_LOW_MAX: i64 = 280_000_000;
/// On restart, pipe i is placed at (i + 1) * 200 pixels.
pub const RESTART_SPACING: i64 = 200_000_000;
/// The background tile is 800 pixels wide.
pub const BACKGROUND_IMAGE_WIDTH: i64 = 800_000_000;

/// Bound on a time delta accepted per tick (ten seconds), so the fixed-point
/// products below fit in an i64.
pub const DT_LIMIT: i64 = 10_000_000;
/// Bound on a velocity accepted per tick (a hundred thousand pixels per
/// second), for the same reason.
pub const VEL_LIMIT: i64 = 100_000_000_000;
/// Bound on a coordinate accepted per tick (a billion pixels), for the same
/// reason.
pub const COORD_LIMIT: i64 = 1_000_000_000_000_000;

/// The three phases of a run: not yet started, running, over.
#[derive(Clone, Copy, PartialEq, Eq, Structural, Debug)]
pub enum GameState {
    NotStarted,
    Active,
    GameOver,
}

/// The per-run shared state: the phase and the score.
#[derive(Clone, Copy, PartialEq, Eq, Structural, Debug)]
pub struct Game {
    pub state: GameState,
    pub score: u32,
}

impl Default for Game {
    /// A fresh game has not started and has no points.
    fn default() -> (g: Game)
        ensures
            g.state == GameState::NotStarted,
            g.score == 0,
    {
        Game { state: GameState::NotStarted, score: 0 }
    }
}

/// The game is in its running phase.
pub fn is_game_active(game: &Game) -> (r: bool)
    ensures
        r == (game.state == GameState::Active),
{
    game.state == GameState::Active
}

/// The game is waiting to start or over.
pub fn is_game_not_active(game: &Game) -> (r: bool)
    ensures
        r == (game.state != GameState::Active),
{
    game.state != GameState::Active
}

/// The bird: vertical position and vertical velocity. Rotation is derived
/// from the velocity by `bird_rotation`, not stored.
#[derive(Clone, Copy, PartialEq, Eq, Structural, Debug)]
pub struct Bird {
    pub y: i64,
    pub velocity: i64,
}

/// One pipe pair: a shared x, the two vertical offsets, and the
/// scored-already guard on the pair.
#[derive(Clone, Copy, PartialEq, Eq, Structural, Debug)]
pub struct PipePair {
    pub x: i64,
    pub upper_y: i64,
    pub lower_y: i64,
    pub passed: bool,
}

/// Division that rounds toward zero, as the fixed-point scaling below needs.
pub open spec fn div_trunc_spec(a: int, b: int) -> int {
    if a >= 0 {
        a / b
    } else {
        -((-a) / b)
    }
}

/// Division by one micro-unit that rounds toward zero.
pub open spec fn div_micro_spec(a: int) -> int {
    div_trunc_spec(a, MICRO as int)
}

fn div_trunc(a: i64, b: i64) -> (r: i64)
    requires
        i64::MIN < a,
        b > 0,
    ensures
        r == div_trunc_spec(a as int, b as int),
{
    if a >= 0 {
        a / b
    } else {
        -((-a) / b)
    }
}

/// The velocity one gravity tick leaves, before any ground contact.
pub open spec fn gravity_velocity_spec(v: int, dt_us: int) -> int {
    v - GRAVITY * dt_us
}

/// The y one gravity tick leaves, before any ground contact: advanced by
/// the updated velocity and capped at the maximum height.
pub open spec fn gravity_y_spec(y: int, v: int, dt_us: int) -> int {
    let moved = y + div_micro_spec(gravity_velocity_spec(v, dt_us) * dt_us);
    if moved < MAX_BIRD_Y {
        moved
    } else {
        MAX_BIRD_Y as int
    }
}

/// One gravity tick: the velocity drops by `GRAVITY * dt`, then the
/// position advances by that updated velocity and is capped at
/// `MAX_BIRD_Y`; if the new y is below the ground contact point, the bird
/// is pinned there, the velocity zeroed and the game ends. Returns whether
/// the ground was hit this tick (re-entering while already over only
/// re-pins, a no-op).
pub fn gravity(bird: &mut Bird, game: &mut Game, dt_us: i64) -> (hit_ground: bool)
    requires
        0 <= dt_us <= DT_LIMIT,
        -VEL_LIMIT <= old(bird).velocity <= VEL_LIMIT,
        -COORD_LIMIT <= old(bird).y <= COORD_LIMIT,
    ensures
        ({
            let v1 = gravity_velocity_spec(old(bird).velocity as int, dt_us as int);
            let y1 = gravity_y_spec(old(bird).y as int, old(bird).velocity as int, dt_us as int);
            if y1 < GROUND_COLLISION_Y {
                &&& final(bird).y == GROUND_COLLISION_Y
                &&& final(bird).velocity == 0
                &&& final(game).state == GameState::GameOver
                &&& hit_ground
            } else {
                &&& final(bird).y == y1
                &&& final(bird).velocity == v1
                &&& *final(game) == *old(game)
                &&& !hit_ground
            }
        }),
        final(game).score == old(game).score,
{
    let delta_v = GRAVITY * dt_us;
    bird.velocity = bird.velocity - delta_v;
    assert(-0x1000_0000_0000_0000 <= bird.velocity * dt_us <= 0x1000_0000_0000_0000)
        by (nonlinear_arith)
        requires
            -VEL_LIMIT - GRAVITY * DT_LIMIT <= bird.velocity <= VEL_LIMIT + GRAVITY * DT_LIMIT,
            0 <= dt_us <= DT_LIMIT,
    ;
    let delta_y = div_trunc(bird.velocity * dt_us, MICRO);
    let moved = bird.y + delta_y;
    bird.y = if moved < MAX_BIRD_Y {
        moved
    } else {
        MAX_BIRD_Y
    };

    if bird.y < GROUND_COLLISION_Y {
        bird.y = GROUND_COLLISION_Y;
        bird.velocity = 0;
        game.state = GameState::GameOver;
        true
    } else {
        false
    }
}

/// The rotation a velocity shows: the velocity over `ROTATION_DIVISOR`,
/// clamped to half a radian either way. Derived state: nothing stores it.
pub open spec fn bird_rotation_spec(v: int) -> int {
    let raw = div_trunc_spec(v, ROTATION_DIVISOR as int);
    if raw < -MAX_ROTATION {
        -MAX_ROTATION as int
    } else if raw > MAX_ROTATION {
        MAX_ROTATION as int
    } else {
        raw
    }
}

/// Rotation in micro-radians for a velocity in micro-pixels per second.
pub fn bird_rotation(velocity: i64) -> (rot: i64)
    requires
        -VEL_LIMIT <= velocity <= VEL_LIMIT,
    ensures
        rot == bird_rotation_spec(velocity as int),
        -MAX_ROTATION <= rot <= MAX_ROTATION,
{
    let raw = div_trunc(velocity, ROTATION_DIVISOR);
    if raw < -MAX_ROTATION {
        -MAX_ROTATION
    } else if raw > MAX_ROTATION {
        MAX_ROTATION
    } else {
        raw
    }
}

/// A jump impulse: sets the velocity to `JUMP_VELOCITY` unconditionally,
/// whatever it was. The caller fires this on a discrete input edge.
pub fn jump(bird: &mut Bird)
    ensures
        final(bird).velocity == JUMP_VELOCITY,
        final(bird).y == old(bird).y,
{
    bird.velocity = JUMP_VELOCITY;
}

/// A fresh pipe position: the lower pipe's y is minus a uniform draw from
/// [PIPE_LOW_MIN, PIPE_LOW_MAX), the upper pipe sits `PIPE_GAP` above it.
pub fn random_pipe_position() -> (r: (i64, i64))
    ensures
        -PIPE_LOW_MAX < r.0 <= -PIPE_LOW_MIN,
        r.1 == r.0 + PIPE_GAP,
{
    let draw = rand_in_range(PIPE_LOW_MIN, PIPE_LOW_MAX);
    let lower = -draw;
    (lower, lower + PIPE_GAP)
}

/// The x of the rightmost pipe of the set.
pub open spec fn rightmost_x_spec(rows: Seq<PipePair>) -> int
    decreases rows.len(),
{
    if rows.len() <= 1 {
        if rows.len() == 1 {
            rows[0].x as int
        } else {
            0
        }
    } else {
        let rest = rightmost_x_spec(rows.drop_last());
        if rows.last().x > rest {
            rows.last().x as int
        } else {
            rest
        }
    }
}

/// A pipe this tick's scroll pushes past the off-screen threshold is
/// recycled.
pub open spec fn pipe_recycled(p: PipePair, delta_x: int) -> bool {
    p.x - delta_x < PIPE_OFFSCREEN_X
}

/// The bird's box strictly overlaps the box of one pipe centred at
/// (pipe_x, pipe_y).
pub open spec fn pipe_collision_spec(bird_x: int, bird_y: int, pipe_x: int, pipe_y: int) -> bool {
    &&& bird_x + HALF_BIRD_W > pipe_x - HALF_PIPE_W
    &&& bird_x - HALF_BIRD_W < pipe_x + HALF_PIPE_W
    &&& bird_y + HALF_BIRD_H > pipe_y - HALF_PIPE_H
    &&& bird_y - HALF_BIRD_H < pipe_y + HALF_PIPE_H
}

/// The bird collides with either pipe of the pair.
pub open spec fn pair_collision_spec(bird_x: int, bird_y: int, p: PipePair) -> bool {
    pipe_collision_spec(bird_x, bird_y, p.x as int, p.upper_y as int)
        || pipe_collision_spec(bird_x, bird_y, p.x as int, p.lower_y as int)
}

fn pipe_collision(bird_x: i64, bird_y: i64, pipe_x: i64, pipe_y: i64) -> (r: bool)
    requires
        -COORD_LIMIT <= bird_x <= COORD_LIMIT,
        -COORD_LIMIT <= bird_y <= COORD_LIMIT,
        -2 * COORD_LIMIT <= pipe_x <= 2 * COORD_LIMIT,
        -2 * COORD_LIMIT <= pipe_y <= 2 * COORD_LIMIT,
    ensures
        r == pipe_collision_spec(bird_x as int, bird_y as int, pipe_x as int, pipe_y as int),
{
    bird_x + HALF_BIRD_W > pipe_x - HALF_PIPE_W && bird_x - HALF_BIRD_W < pipe_x + HALF_PIPE_W
        && bird_y + HALF_BIRD_H > pipe_y - HALF_PIPE_H && bird_y - HALF_BIRD_H < pipe_y
        + HALF_PIPE_H
}

/// All coordinates of every pipe of the set are within `bound`.
pub open spec fn pipes_within(rows: Seq<PipePair>, bound: int) -> bool {
    forall|i: int|
        0 <= i < rows.len() ==> {
            &&& -bound <= #[trigger] rows[i].x <= bound
            &&& -bound <= rows[i].upper_y <= bound
            &&& -bound <= rows[i].lower_y <= bound
        }
}

/// One scroll tick of the pipe set, against the given fresh pipe position:
/// every pipe moves left by `SCROLL_SPEED * dt`; one that crosses the
/// off-screen threshold is recycled to one spacing right of where the
/// rightmost pipe stood before the tick, takes the fresh vertical offsets,
/// and has its passed flag cleared. Then the bird is tested against every
/// pipe box; any strict overlap ends the game.
#[verifier::loop_isolation(false)]
pub fn pipes_with_position(
    pipe_rows: &mut Vec<PipePair>,
    bird_x: i64,
    bird_y: i64,
    game: &mut Game,
    dt_us: i64,
    lower_y: i64,
    upper_y: i64,
) -> (hit: bool)
    requires
        old(pipe_rows).len() > 0,
        pipes_within(old(pipe_rows)@, COORD_LIMIT as int),
        -COORD_LIMIT <= bird_x <= COORD_LIMIT,
        -COORD_LIMIT <= bird_y <= COORD_LIMIT,
        -COORD_LIMIT <= lower_y <= COORD_LIMIT,
        -COORD_LIMIT <= upper_y <= COORD_LIMIT,
        0 <= dt_us <= DT_LIMIT,
    ensures
        final(pipe_rows)@.len() == old(pipe_rows)@.len(),
        ({
            let delta_x = SCROLL_SPEED * dt_us as int;
            let new_x = rightmost_x_spec(old(pipe_rows)@) + PIPE_SPACING;
            forall|i: int|
                0 <= i < old(pipe_rows)@.len() ==> {
                    let p = #[trigger] old(pipe_rows)@[i];
                    if pipe_recycled(p, delta_x) {
                        &&& final(pipe_rows)@[i].x == new_x
                        &&& final(pipe_rows)@[i].upper_y == upper_y
                        &&& final(pipe_rows)@[i].lower_y == lower_y
                        &&& !final(pipe_rows)@[i].passed
                    } else {
                        &&& final(pipe_rows)@[i].x == p.x - delta_x
                        &&& final(pipe_rows)@[i].upper_y == p.upper_y
                        &&& final(pipe_rows)@[i].lower_y == p.lower_y
                        &&& final(pipe_rows)@[i].passed == p.passed
                    }
                }
        }),
        hit == exists|i: int|
            0 <= i < final(pipe_rows)@.len() && pair_collision_spec(
                bird_x as int,
                bird_y as int,
                #[trigger] final(pipe_rows)@[i],
            ),
        final(game).state == if hit {
            GameState::GameOver
        } else {
            old(game).state
        },
        final(game).score == old(game).score,
{
    let ghost orig = pipe_rows@;

    // Where a recycled pipe reappears: one spacing right of the rightmost
    // pipe, measured before anything moves.
    let mut rightmost = pipe_rows[0].x;
    assert(rightmost == rightmost_x_spec(pipe_rows@.take(1)));
    let mut i: usize = 1;
    while i < pipe_rows.len()
        invariant
            1 <= i <= pipe_rows@.len(),
            rightmost == rightmost_x_spec(pipe_rows@.take(i as int)),
            -COORD_LIMIT <= rightmost <= COORD_LIMIT,
        decreases pipe_rows@.len() - i,
    {
        proof {
            assert(pipe_rows@.take(i + 1).drop_last() =~= pipe_rows@.take(i as int));
            assert(pipe_rows@.take(i + 1).last() == pipe_rows@[i as int]);
        }
        if pipe_rows[i].x > rightmost {
            rightmost = pipe_rows[i].x;
        }
        i = i + 1;
    }
    proof {
        assert(pipe_rows@.take(pipe_rows@.len() as int) =~= pipe_rows@);
    }

    let new_x = rightmost + PIPE_SPACING;
    let delta_x = SCROLL_SPEED * dt_us;

    let mut i: usize = 0;
    while i < pipe_rows.len()
        invariant
            0 <= i <= pipe_rows@.len(),
            pipe_rows@.len() == orig.len(),
            forall|j: int| i <= j < orig.len() ==> pipe_rows@[j] == orig[j],
            forall|j: int|
                0 <= j < i ==> {
                    let p = #[trigger] orig[j];
                    if pipe_recycled(p, delta_x as int) {
                        &&& pipe_rows@[j].x == new_x
                        &&& pipe_rows@[j].upper_y == upper_y
                        &&& pipe_rows@[j].lower_y == lower_y
                        &&& !pipe_rows@[j].passed
                    } else {
                        &&& pipe_rows@[j].x == p.x - delta_x
                        &&& pipe_rows@[j].upper_y == p.upper_y
                        &&& pipe_rows@[j].lower_y == p.lower_y
                        &&& pipe_rows@[j].passed == p.passed
                    }
                },
        decreases pipe_rows@.len() - i,
    {
        let p = pipe_rows[i];
        proof {
            assert(p == orig[i as int]);
            assert(-COORD_LIMIT <= orig[i as int].x <= COORD_LIMIT);
        }
        let moved = p.x - delta_x;
        if moved < PIPE_OFFSCREEN_X {
            pipe_rows[i] = PipePair { x: new_x, upper_y, lower_y, passed: false };
        } else {
            pipe_rows[i] = PipePair { x: moved, ..p };
        }
        i = i + 1;
    }

    proof {
        assert forall|j: int|
            0 <= j < orig.len() implies -2 * COORD_LIMIT <= #[trigger] pipe_rows@[j].x <= 2
            * COORD_LIMIT && -2 * COORD_LIMIT <= pipe_rows@[j].upper_y <= 2 * COORD_LIMIT && -2
            * COORD_LIMIT <= pipe_rows@[j].lower_y <= 2 * COORD_LIMIT by {
            assert(-COORD_LIMIT <= orig[j].x <= COORD_LIMIT);
            assert(-COORD_LIMIT <= orig[j].upper_y <= COORD_LIMIT);
            assert(-COORD_LIMIT <= orig[j].lower_y <= COORD_LIMIT);
        }
    }
    let mut hit = false;
    let mut i: usize = 0;
    while i < pipe_rows.len()
        invariant
            0 <= i <= pipe_rows@.len(),
            pipe_rows@.len() == orig.len(),
            forall|j: int|
                0 <= j < orig.len() ==> -2 * COORD_LIMIT <= #[trigger] pipe_rows@[j].x <= 2
                    * COORD_LIMIT && -2 * COORD_LIMIT <= pipe_rows@[j].upper_y <= 2 * COORD_LIMIT
                    && -2 * COORD_LIMIT <= pipe_rows@[j].lower_y <= 2 * COORD_LIMIT,
            hit == exists|j: int|
                0 <= j < i && pair_collision_spec(
                    bird_x as int,
                    bird_y as int,
                    #[trigger] pipe_rows@[j],
                ),
        decreases pipe_rows@.len() - i,
    {
        let p = pipe_rows[i];
        if pipe_collision(bird_x, bird_y, p.x, p.upper_y) || pipe_collision(
            bird_x,
            bird_y,
            p.x,
            p.lower_y,
        ) {
            hit = true;
        }
        i = i + 1;
    }

    if hit {
        game.state = GameState::GameOver;
    }
    hit
}

/// One scroll tick of the pipe set with a freshly drawn pipe position: as
/// `pipes_with_position`, each recycled pipe taking a lower y drawn from
/// (-PIPE_LOW_MAX, -PIPE_LOW_MIN] with the upper y one gap above it.
pub fn pipes(
    pipe_rows: &mut Vec<PipePair>,
    bird_x: i64,
    bird_y: i64,
    game: &mut Game,
    dt_us: i64,
) -> (hit: bool)
    requires
        old(pipe_rows).len() > 0,
        pipes_within(old(pipe_rows)@, COORD_LIMIT as int),
        -COORD_LIMIT <= bird_x <= COORD_LIMIT,
        -COORD_LIMIT <= bird_y <= COORD_LIMIT,
        0 <= dt_us <= DT_LIMIT,
    ensures
        final(pipe_rows)@.len() == old(pipe_rows)@.len(),
        ({
            let delta_x = SCROLL_SPEED * dt_us as int;
            let new_x = rightmost_x_spec(old(pipe_rows)@) + PIPE_SPACING;
            forall|i: int|
                0 <= i < old(pipe_rows)@.len() ==> {
                    let p = #[trigger] old(pipe_rows)@[i];
                    if pipe_recycled(p, delta_x) {
                        &&& final(pipe_rows)@[i].x == new_x
                        &&& -PIPE_LOW_MAX < final(pipe_rows)@[i].lower_y <= -PIPE_LOW_MIN
                        &&& final(pipe_rows)@[i].upper_y == final(pipe_rows)@[i].lower_y
                            + PIPE_GAP
                        &&& !final(pipe_rows)@[i].passed
                    } else {
                        &&& final(pipe_rows)@[i].x == p.x - delta_x
                        &&& final(pipe_rows)@[i].upper_y == p.upper_y
                        &&& final(pipe_rows)@[i].lower_y == p.lower_y
                        &&& final(pipe_rows)@[i].passed == p.passed
                    }
                }
        }),
        ({
            // The fresh position is drawn once per tick: every pipe recycled
            // on this tick takes the same one.
            let delta_x = SCROLL_SPEED * dt_us as int;
            forall|i: int, j: int|
                #![trigger final(pipe_rows)@[i].lower_y, final(pipe_rows)@[j].lower_y]
                0 <= i < old(pipe_rows)@.len() && 0 <= j < old(pipe_rows)@.len() && pipe_recycled(
                    old(pipe_rows)@[i],
                    delta_x,
                ) && pipe_recycled(old(pipe_rows)@[j], delta_x) ==> final(pipe_rows)@[i].lower_y
                    == final(pipe_rows)@[j].lower_y
        }),
        hit == exists|i: int|
            0 <= i < final(pipe_rows)@.len() && pair_collision_spec(
                bird_x as int,
                bird_y as int,
                #[trigger] final(pipe_rows)@[i],
            ),
        final(game).state == if hit {
            GameState::GameOver
        } else {
            old(game).state
        },
        final(game).score == old(game).score,
{
    let (lower_y, upper_y) = random_pipe_position();
    pipes_with_position(pipe_rows, bird_x, bird_y, game, dt_us, lower_y, upper_y)
}

/// The pipe is ahead of the bird but not yet marked passed: it scores now.
pub open spec fn pipe_newly_passed(p: PipePair, bird_x: int) -> bool {
    p.x < bird_x && !p.passed
}

/// How many pipes score on this pass.
pub open spec fn newly_passed_count(rows: Seq<PipePair>, bird_x: int) -> int
    decreases rows.len(),
{
    if rows.len() == 0 {
        0
    } else {
        newly_passed_count(rows.drop_last(), bird_x) + if pipe_newly_passed(
            rows.last(),
            bird_x,
        ) {
            1int
        } else {
            0int
        }
    }
}

/// One pipe after a scoring pass: marked passed once the bird is beyond it.
pub open spec fn score_mark(p: PipePair, bird_x: int) -> PipePair {
    PipePair { x: p.x, upper_y: p.upper_y, lower_y: p.lower_y, passed: p.passed || p.x < bird_x }
}

/// The pipe set after a scoring pass.
pub open spec fn score_marked(rows: Seq<PipePair>, bird_x: int) -> Seq<PipePair> {
    rows.map_values(|p: PipePair| score_mark(p, bird_x))
}

/// A count of newly passed pipes never exceeds the number of pipes.
proof fn lemma_newly_passed_count_le_len(rows: Seq<PipePair>, bird_x: int)
    ensures
        0 <= newly_passed_count(rows, bird_x) <= rows.len(),
    decreases rows.len(),
{
    if rows.len() > 0 {
        lemma_newly_passed_count_le_len(rows.drop_last(), bird_x);
    }
}

/// One scoring pass: every pipe whose x is now less than the bird's x and
/// that is not yet marked passed is marked and scores exactly one point; the
/// positions and the game phase are untouched.
#[verifier::loop_isolation(false)]
pub fn score(game: &mut Game, bird_x: i64, pipe_rows: &mut Vec<PipePair>)
    requires
        old(game).score + old(pipe_rows)@.len() <= u32::MAX,
    ensures
        final(pipe_rows)@ == score_marked(old(pipe_rows)@, bird_x as int),
        final(game).score == old(game).score + newly_passed_count(
            old(pipe_rows)@,
            bird_x as int,
        ),
        final(game).state == old(game).state,
{
    let ghost orig = pipe_rows@;
    let mut i: usize = 0;
    while i < pipe_rows.len()
        invariant
            0 <= i <= orig.len(),
            pipe_rows@.len() == orig.len(),
            forall|j: int| i <= j < orig.len() ==> pipe_rows@[j] == orig[j],
            forall|j: int| 0 <= j < i ==> pipe_rows@[j] == score_mark(orig[j], bird_x as int),
            game.score == old(game).score + newly_passed_count(
                orig.take(i as int),
                bird_x as int,
            ),
            game.state == old(game).state,
        decreases orig.len() - i,
    {
        proof {
            assert(orig.take(i + 1).drop_last() =~= orig.take(i as int));
            assert(orig.take(i + 1).last() == orig[i as int]);
            lemma_newly_passed_count_le_len(orig.take(i as int), bird_x as int);
        }
        let p = pipe_rows[i];
        if p.x < bird_x && !p.passed {
            game.score = game.score + 1;
            pipe_rows[i] = PipePair { passed: true, ..p };
        } else {
            pipe_rows[i] = PipePair { passed: p.passed || p.x < bird_x, ..p };
        }
        i = i + 1;
    }
    proof {
        assert(orig.take(orig.len() as int) =~= orig);
        assert(pipe_rows@ =~= score_marked(orig, bird_x as int));
    }
}

/// Pipe pass idempotence law: with the bird's x fixed, a second scoring pass
/// finds nothing new: the marks do not change again and it scores zero, so
/// repeated passes raise the score exactly once per pipe pass.
pub proof fn lemma_score_idempotent(rows: Seq<PipePair>, bird_x: int)
    ensures
        score_marked(score_marked(rows, bird_x), bird_x) == score_marked(rows, bird_x),
        newly_passed_count(score_marked(rows, bird_x), bird_x) == 0,
    decreases rows.len(),
{
    let marked = score_marked(rows, bird_x);
    assert(score_marked(marked, bird_x) =~= marked);
    if rows.len() == 0 {
        assert(newly_passed_count(marked, bird_x) == 0);
    } else {
        lemma_score_idempotent(rows.drop_last(), bird_x);
        assert(marked.drop_last() =~= score_marked(rows.drop_last(), bird_x));
        assert(marked.last() == score_mark(rows.last(), bird_x));
        assert(!pipe_newly_passed(marked.last(), bird_x));
    }
}

/// One restart: on a start input edge while the game is not running, the
/// bird returns to the origin at rest, the game becomes active (its score is
/// left as it was), and, when the previous run ended in game over, pipe i
/// returns to its initial spot at (i + 1) spacings with its passed flag
/// cleared and its vertical offsets kept.
#[verifier::loop_isolation(false)]
pub fn start_game(
    game: &mut Game,
    bird: &mut Bird,
    pipe_rows: &mut Vec<PipePair>,
    space_just_pressed: bool,
)
    requires
        old(pipe_rows)@.len() <= 4_000_000,
    ensures
        !space_just_pressed ==> {
            &&& *final(game) == *old(game)
            &&& *final(bird) == *old(bird)
            &&& final(pipe_rows)@ == old(pipe_rows)@
        },
        space_just_pressed ==> {
            &&& final(game).state == GameState::Active
            &&& final(game).score == old(game).score
            &&& final(bird).velocity == 0
            &&& final(bird).y == 0
        },
        space_just_pressed && old(game).state == GameState::GameOver ==> {
            &&& final(pipe_rows)@.len() == old(pipe_rows)@.len()
            &&& forall|i: int|
                0 <= i < old(pipe_rows)@.len() ==> {
                    let p = #[trigger] old(pipe_rows)@[i];
                    &&& final(pipe_rows)@[i].x == (i + 1) * RESTART_SPACING
                    &&& final(pipe_rows)@[i].upper_y == p.upper_y
                    &&& final(pipe_rows)@[i].lower_y == p.lower_y
                    &&& !final(pipe_rows)@[i].passed
                }
        },
        space_just_pressed && old(game).state != GameState::GameOver ==> final(pipe_rows)@ == old(
            pipe_rows,
        )@,
{
    if !space_just_pressed {
        return ;
    }

    if game.state == GameState::GameOver {
        let ghost orig = pipe_rows@;
        let mut i: usize = 0;
        while i < pipe_rows.len()
            invariant
                0 <= i <= orig.len(),
                pipe_rows@.len() == orig.len(),
                forall|j: int| i <= j < orig.len() ==> pipe_rows@[j] == orig[j],
                forall|j: int|
                    0 <= j < i ==> {
                        &&& (#[trigger] pipe_rows@[j]).x == (j + 1) * RESTART_SPACING
                        &&& pipe_rows@[j].upper_y == orig[j].upper_y
                        &&& pipe_rows@[j].lower_y == orig[j].lower_y
                        &&& !pipe_rows@[j].passed
                    },
            decreases orig.len() - i,
        {
            let p = pipe_rows[i];
            let x: i64 = (i as i64 + 1) * RESTART_SPACING;
            pipe_rows[i] = PipePair { x, upper_y: p.upper_y, lower_y: p.lower_y, passed: false };
            i = i + 1;
        }
    }

    game.state = GameState::Active;
    bird.velocity = 0;
    bird.y = 0;
}

/// The sum of a sequence of time deltas.
pub open spec fn seq_sum(s: Seq<int>) -> int
    decreases s.len(),
{
    if s.len() == 0 {
        0
    } else {
        s[0] + seq_sum(s.drop_first())
    }
}

/// The velocity that a sequence of gravity ticks leaves, none of them
/// ending in ground contact: each tick applies `gravity_velocity_spec`.
pub open spec fn velocity_after(v0: int, dts: Seq<int>) -> int
    decreases dts.len(),
{
    if dts.len() == 0 {
        v0
    } else {
        velocity_after(gravity_velocity_spec(v0, dts[0]), dts.drop_first())
    }
}

/// Gravity integration law, first half: over any sequence of ticks free of
/// ground contact, the final velocity is the closed form
/// `v0 - GRAVITY * sum(dts)`.
pub proof fn lemma_velocity_closed_form(v0: int, dts: Seq<int>)
    ensures
        velocity_after(v0, dts) == v0 - GRAVITY * seq_sum(dts),
    decreases dts.len(),
{
    if dts.len() == 0 {
    } else {
        let v1 = gravity_velocity_spec(v0, dts[0]);
        lemma_velocity_closed_form(v1, dts.drop_first());
        assert(GRAVITY * (dts[0] + seq_sum(dts.drop_first())) == GRAVITY * dts[0] + GRAVITY
            * seq_sum(dts.drop_first())) by (nonlinear_arith);
    }
}

/// Gravity integration law, second half: the final velocity depends on the
/// sum of the deltas alone, so any two orders of the same ticks — in
/// particular any reordering of equal-dt ticks — agree.
pub proof fn lemma_velocity_order_free(v0: int, dts_a: Seq<int>, dts_b: Seq<int>)
    requires
        seq_sum(dts_a) == seq_sum(dts_b),
    ensures
        velocity_after(v0, dts_a) == velocity_after(v0, dts_b),
{
    lemma_velocity_closed_form(v0, dts_a);
    lemma_velocity_closed_form(v0, dts_b);
}

/// A repeating animation timer: elapsed time wraps around the period each
/// time it fills it, reporting that it finished this tick.
#[derive(Clone, Copy, PartialEq, Eq, Structural, Debug)]
pub struct AnimTimer {
    pub elapsed_us: i64,
    pub duration_us: i64,
}

/// The timer's bookkeeping invariant.
pub open spec fn timer_wf(t: AnimTimer) -> bool {
    &&& 0 < t.duration_us <= COORD_LIMIT
    &&& 0 <= t.elapsed_us < t.duration_us
}

impl AnimTimer {
    /// A fresh repeating timer with the given period.
    pub fn new(duration_us: i64) -> (t: AnimTimer)
        requires
            0 < duration_us <= COORD_LIMIT,
        ensures
            t.duration_us == duration_us,
            t.elapsed_us == 0,
            timer_wf(t),
    {
        AnimTimer { elapsed_us: 0, duration_us }
    }

    /// Advance by a tick's delta: reports whether the period filled, and
    /// keeps the remainder.
    pub fn tick(&mut self, dt_us: i64) -> (finished: bool)
        requires
            timer_wf(*old(self)),
            0 <= dt_us <= DT_LIMIT,
        ensures
            timer_wf(*final(self)),
            final(self).duration_us == old(self).duration_us,
            finished == (old(self).elapsed_us + dt_us >= old(self).duration_us),
            final(self).elapsed_us == (old(self).elapsed_us + dt_us) % (
            old(self).duration_us as int),
    {
        let total = self.elapsed_us + dt_us;
        if total >= self.duration_us {
            self.elapsed_us = total % self.duration_us;
            true
        } else {
            assert(total as int % (self.duration_us as int) == total as int) by (nonlinear_arith)
                requires
                    0 <= total < self.duration_us,
            ;
            self.elapsed_us = total;
            false
        }
    }

    /// Rewind to the start of the period.
    pub fn reset(&mut self)
        ensures
            final(self).elapsed_us == 0,
            final(self).duration_us == old(self).duration_us,
    {
        self.elapsed_us = 0;
    }
}

/// One blink tick of the press-space text: each time its timer fills, the
/// visibility toggles.
pub fn blink_space_bar_text(timer: &mut AnimTimer, visible: &mut bool, dt_us: i64)
    requires
        timer_wf(*old(timer)),
        0 <= dt_us <= DT_LIMIT,
    ensures
        timer_wf(*final(timer)),
        final(timer).duration_us == old(timer).duration_us,
        final(timer).elapsed_us == (old(timer).elapsed_us + dt_us) % (
        old(timer).duration_us as int),
        *final(visible) == if old(timer).elapsed_us + dt_us >= old(timer).duration_us {
            !*old(visible)
        } else {
            *old(visible)
        },
{
    let finished = timer.tick(dt_us);
    if finished {
        *visible = !*visible;
    }
}

/// One animation tick of the bird sprite: each time its timer fills, the
/// atlas frame advances, wrapping from 2 back to 0.
pub fn animate_bird(timer: &mut AnimTimer, atlas_index: &mut usize, dt_us: i64)
    requires
        timer_wf(*old(timer)),
        0 <= dt_us <= DT_LIMIT,
        *old(atlas_index) < usize::MAX,
    ensures
        timer_wf(*final(timer)),
        final(timer).duration_us == old(timer).duration_us,
        final(timer).elapsed_us == (old(timer).elapsed_us + dt_us) % (
        old(timer).duration_us as int),
        *final(atlas_index) == if old(timer).elapsed_us + dt_us >= old(timer).duration_us {
            if *old(atlas_index) == 2 {
                0int
            } else {
                *old(atlas_index) + 1
            }
        } else {
            *old(atlas_index) as int
        },
{
    let finished = timer.tick(dt_us);
    if finished {
        *atlas_index = if *atlas_index == 2 {
            0
        } else {
            *atlas_index + 1
        };
    }
}

/// One scroll tick of the background layer: it slides left at
/// `BACKGROUND_SPEED` and snaps back to 0 once a full tile has passed.
pub fn move_background(x: &mut i64, dt_us: i64)
    requires
        -COORD_LIMIT <= *old(x) <= COORD_LIMIT,
        0 <= dt_us <= DT_LIMIT,
    ensures
        *final(x) == if *old(x) - BACKGROUND_SPEED * dt_us < -BACKGROUND_IMAGE_WIDTH {
            0int
        } else {
            *old(x) - BACKGROUND_SPEED * dt_us
        },
{
    *x = *x - BACKGROUND_SPEED * dt_us;
    if *x < -BACKGROUND_IMAGE_WIDTH {
        *x = 0;
    }
}

/// One scroll tick of the ground layer: as the background, but at the
/// faster `SCROLL_SPEED` of the foreground.
pub fn move_ground(x: &mut i64, dt_us: i64)
    requires
        -COORD_LIMIT <= *old(x) <= COORD_LIMIT,
        0 <= dt_us <= DT_LIMIT,
    ensures
        *final(x) == if *old(x) - SCROLL_SPEED * dt_us < -BACKGROUND_IMAGE_WIDTH {
            0int
        } else {
            *old(x) - SCROLL_SPEED * dt_us
        },
{
    *x = *x - SCROLL_SPEED * dt_us;
    if *x < -BACKGROUND_IMAGE_WIDTH {
        *x = 0;
    }
}

/// On first spawn, pipe i stands at this many pixels (350 plus i
/// spacings).
pub const FIRST_PIPE_X: i64 = 350_000_000;

/// The initial pipe set: `count` pairs, pipe i at `FIRST_PIPE_X` plus i
/// spacings, each with a freshly drawn vertical position and an unset
/// passed flag.
#[verifier::loop_isolation(false)]
pub fn initial_pipes(count: usize) -> (rows: Vec<PipePair>)
    requires
        count <= 4_000_000,
    ensures
        rows@.len() == count,
        forall|i: int|
            0 <= i < count ==> {
                &&& (#[trigger] rows@[i]).x == FIRST_PIPE_X + i * PIPE_SPACING
                &&& -PIPE_LOW_MAX < rows@[i].lower_y <= -PIPE_LOW_MIN
                &&& rows@[i].upper_y == rows@[i].lower_y + PIPE_GAP
                &&& !rows@[i].passed
            },
{
    let mut rows: Vec<PipePair> = Vec::new();
    let mut i: usize = 0;
    while i < count
        invariant
            0 <= i <= count,
            rows@.len() == i,
            forall|j: int|
                0 <= j < i ==> {
                    &&& (#[trigger] rows@[j]).x == FIRST_PIPE_X + j * PIPE_SPACING
                    &&& -PIPE_LOW_MAX < rows@[j].lower_y <= -PIPE_LOW_MIN
                    &&& rows@[j].upper_y == rows@[j].lower_y + PIPE_GAP
                    &&& !rows@[j].passed
                },
        decreases count - i,
    {
        let (lower_y, upper_y) = random_pipe_position();
        let x: i64 = FIRST_PIPE_X + (i as i64) * PIPE_SPACING;
        rows.push(PipePair { x, upper_y, lower_y, passed: false });
        i = i + 1;
    }
    rows
}

/// The decimal digits of n, most significant first, no leading zeros.
pub open spec fn digits_spec(n: int) -> Seq<u8>
    decreases n,
{
    if n < 10 {
        seq![n as u8]
    } else {
        digits_spec(n / 10).push((n % 10) as u8)
    }
}

/// The digit row the score display shows: the decimal digits of the score,
/// left-padded with zeros to at least three.
pub open spec fn score_digits_spec(n: int) -> Seq<u8> {
    if n < 10 {
        seq![0u8, 0u8] + digits_spec(n)
    } else if n < 100 {
        seq![0u8] + digits_spec(n)
    } else {
        digits_spec(n)
    }
}

fn push_digits(n: u32, out: &mut Vec<u8>)
    ensures
        final(out)@ == old(out)@ + digits_spec(n as int),
    decreases n,
{
    if n < 10 {
        out.push(n as u8);
        assert(out@ =~= old(out)@ + digits_spec(n as int));
    } else {
        push_digits(n / 10, out);
        out.push((n % 10) as u8);
        assert(out@ =~= old(out)@ + digits_spec(n as int));
    }
}

/// The digits to show for a score, as the atlas indices of the score text:
/// its decimal digits, left-padded with zeros to at least three.
pub fn render_score(score: u32) -> (digits: Vec<u8>)
    ensures
        digits@ == score_digits_spec(score as int),
{
    let mut out: Vec<u8> = Vec::new();
    if score < 10 {
        out.push(0);
        out.push(0);
    } else if score < 100 {
        out.push(0);
    }
    push_digits(score, &mut out);
    proof {
        if score < 10 {
            assert(out@ =~= score_digits_spec(score as int));
        } else if score < 100 {
            assert(out@ =~= score_digits_spec(score as int));
        }
    }
    out
}

} // verus!
