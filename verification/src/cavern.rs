//! Platformer demo: the robot enemy. Per tick the robot falls and lands
//! against the level grid, walks in its current direction until a wall
//! forces a new choice, picks directions at random with a bias toward the
//! player, aims at orbs, fires at the player by chance, and is trapped by
//! the first orb it touches.
//!
//! This module works in whole pixels. The robot and the player are anchored
//! at the centre of their bottom edge; an orb's position is its centre.

use vstd::prelude::*;

use crate::rng::rand_in_range;

verus! {

/// The level grid is square cells of this many pixels.
pub const GRID_BLOCK_SIZE: i32 = 25;
/// Pixel columns left of this count as a wall.
pub const LEVEL_X_MIN: i32 = 70;
/// Pixel columns right of this count as a wall.
pub const LEVEL_X_MAX: i32 = 730;
/// Falling speed is capped at this many pixels per tick.
pub const MAX_FALL_SPEED: i32 = 10;
/// The robot's bounding box rises this far above its anchor.
pub const ROBOT_HEIGHT: i32 = 80;
/// The player's bounding box rises this far above its anchor.
pub const PLAYER_HEIGHT: i32 = 60;
/// An aggressive robot aims at orbs within this horizontal distance.
pub const AIM_RANGE_X: i32 = 200;
/// An orb traps a robot whose anchor comes within this radius of its
/// centre.
pub const ORB_RADIUS: i32 = 35;
/// A fired bolt appears this far ahead of the robot.
pub const BOLT_OFFSET_X: i32 = 20;
/// A fired bolt appears this far above the robot's anchor.
pub const BOLT_OFFSET_Y: i32 = 38;
/// Probabilities are in parts per million: this is certainty.
pub const PROB_ONE: i64 = 1_000_000;
/// Bound on a coordinate this module accepts (machine limit: keeps every
/// pixel sum far inside an i32).
pub const POS_LIMIT: i32 = 1_000_000;
/// Bound on a per-tick speed or velocity this module accepts.
pub const SPEED_LIMIT: i32 = 1000;

/// The two robot kinds: aggressive ones deliberately aim at orbs.
#[derive(Clone, Copy, PartialEq, Eq, Structural, Debug)]
pub enum RobotType {
    Aggressive,
    Normal,
}

impl RobotType {
    /// The sprite-sheet row of the kind: 0 for aggressive, 1 for normal.
    pub fn val(&self) -> (v: i32)
        ensures
            v == match *self {
                RobotType::Aggressive => 0int,
                RobotType::Normal => 1int,
            },
    {
        match self {
            RobotType::Aggressive => 0,
            RobotType::Normal => 1,
        }
    }
}

/// The mathematical sign: -1, 0 or 1.
pub open spec fn sign_spec(v: int) -> int {
    if v > 0 {
        1
    } else if v < 0 {
        -1
    } else {
        0
    }
}

fn signum(v: i32) -> (s: i32)
    ensures
        s == sign_spec(v as int),
{
    if v > 0 {
        1
    } else if v < 0 {
        -1
    } else {
        0
    }
}

/// The level layout: solid cells of the grid, row by row. A pixel outside
/// the stored rows and columns is empty.
pub struct Level {
    pub cells: Vec<Vec<bool>>,
}

/// The grid cell holding pixel (x, y) is solid.
pub open spec fn solid_at_spec(level: &Level, x: int, y: int) -> bool {
    let gx = x / (GRID_BLOCK_SIZE as int);
    let gy = y / (GRID_BLOCK_SIZE as int);
    &&& 0 <= gy < level.cells@.len()
    &&& 0 <= gx < level.cells@[gy]@.len()
    &&& level.cells@[gy]@[gx]
}

/// A single-pixel step to (x, y) is refused there: past a side wall, or
/// into a solid cell.
pub open spec fn step_blocked_spec(level: &Level, x: int, y: int) -> bool {
    x < LEVEL_X_MIN || x > LEVEL_X_MAX || solid_at_spec(level, x, y)
}

impl Level {
    /// The grid cell holding pixel (x, y) is solid.
    pub fn solid_at(&self, x: i32, y: i32) -> (r: bool)
        ensures
            r == solid_at_spec(self, x as int, y as int),
    {
        if x < 0 || y < 0 {
            return false;
        }
        let gx = (x / GRID_BLOCK_SIZE) as usize;
        let gy = (y / GRID_BLOCK_SIZE) as usize;
        if gy < self.cells.len() {
            let row = &self.cells[gy];
            if gx < row.len() {
                return row[gx];
            }
        }
        false
    }

    fn step_blocked(&self, x: i32, y: i32) -> (r: bool)
        ensures
            r == step_blocked_spec(self, x as int, y as int),
    {
        x < LEVEL_X_MIN || x > LEVEL_X_MAX || self.solid_at(x, y)
    }
}

/// Where pixel-by-pixel movement from (x, y) along (dx, dy) ends after at
/// most n steps, and whether it was blocked: each step is refused, ending
/// the walk where it stands, if the next pixel is past a wall or solid.
pub open spec fn move_result_spec(
    level: &Level,
    x: int,
    y: int,
    dx: int,
    dy: int,
    n: nat,
) -> (int, int, bool)
    decreases n,
{
    if n == 0 {
        (x, y, false)
    } else {
        let nx = x + dx;
        let ny = y + dy;
        if step_blocked_spec(level, nx, ny) {
            (x, y, true)
        } else {
            move_result_spec(level, nx, ny, dx, dy, (n - 1) as nat)
        }
    }
}

/// The two robot kinds' sprite selection is a pure function of kind,
/// facing, fire-timer phase and the global tick: 16 frames per kind, 8 per
/// facing; frames 5..7 while the firing animation runs (the first 12 ticks
/// after ignition), else a 4-frame walk cycle driven by the global tick.
pub open spec fn image_index_spec(
    type_: RobotType,
    direction_x: int,
    fire_timer: int,
    game_timer: int,
) -> int {
    let type_factor = 16 * (match type_ {
        RobotType::Aggressive => 0int,
        RobotType::Normal => 1int,
    });
    let direction_factor = if direction_x > 0 {
        8int
    } else {
        0int
    };
    let fire_factor = if fire_timer < 12 {
        5 + fire_timer / 4
    } else {
        1 + (game_timer / 4) % 4
    };
    type_factor + direction_factor + fire_factor
}

/// The sprite index a robot shows, bit-exact: part of the observable
/// behaviour even though it affects nothing but drawing.
pub fn select_image(type_: RobotType, direction_x: i32, fire_timer: i32, game_timer: i32) -> (idx:
    usize)
    requires
        0 <= fire_timer,
        0 <= game_timer,
    ensures
        idx == image_index_spec(type_, direction_x as int, fire_timer as int, game_timer as int),
        idx < 32,
{
    let type_factor = 16 * type_.val();
    let direction_factor: i32 = if direction_x > 0 {
        8
    } else {
        0
    };
    let fire_factor: i32 = if fire_timer < 12 {
        5 + fire_timer / 4
    } else {
        1 + (game_timer / 4) % 4
    };
    (type_factor + direction_factor + fire_factor) as usize
}

/// A projectile fired by a robot.
#[derive(Clone, Copy, PartialEq, Eq, Structural, Debug)]
pub struct Bolt {
    pub x: i32,
    pub y: i32,
    pub direction_x: i32,
}

impl Bolt {
    pub fn new(x: i32, y: i32, direction_x: i32) -> (b: Bolt)
        ensures
            b == (Bolt { x, y, direction_x }),
    {
        Bolt { x, y, direction_x }
    }
}

/// An orb: a floating bubble that can trap one robot.
#[derive(Clone, Copy, PartialEq, Eq, Structural, Debug)]
pub struct Orb {
    pub x: i32,
    pub y: i32,
    pub trapped_enemy_type: Option<RobotType>,
    pub floating: bool,
}

/// The player, reduced to the anchor position the robot logic reads.
#[derive(Clone, Copy, PartialEq, Eq, Structural, Debug)]
pub struct Player {
    pub x: i32,
    pub y: i32,
}

/// The robot enemy.
#[derive(Clone, Copy, PartialEq, Eq, Structural, Debug)]
pub struct Robot {
    pub type_: RobotType,
    pub speed: i32,
    pub direction_x: i32,
    pub alive: bool,
    pub change_dir_timer: i32,
    pub fire_timer: i32,
    pub x: i32,
    pub y: i32,
    pub image_index: usize,
    pub vel_y: i32,
    pub landed: bool,
}

/// The robot's fields are inside the bounds the update arithmetic needs.
pub open spec fn robot_wf(r: Robot) -> bool {
    &&& -POS_LIMIT <= r.x <= POS_LIMIT
    &&& -POS_LIMIT <= r.y <= POS_LIMIT
    &&& -SPEED_LIMIT <= r.vel_y <= SPEED_LIMIT
    &&& 0 <= r.speed <= SPEED_LIMIT
    &&& r.direction_x == -1 || r.direction_x == 0 || r.direction_x == 1
    &&& 0 <= r.fire_timer <= 1_000_000_000
    &&& -1_000_000_000 <= r.change_dir_timer <= 1_000_000_000
}

impl Robot {
    /// A robot at (x, y) of the given kind with the given walking speed:
    /// facing right, alive, due for an immediate direction choice, fire
    /// timer past every threshold.
    pub fn with_speed(x: i32, y: i32, type_: RobotType, speed: i32) -> (r: Robot)
        ensures
            r == (Robot {
                type_,
                speed,
                direction_x: 1,
                alive: true,
                change_dir_timer: 0,
                fire_timer: 100,
                x,
                y,
                image_index: 0,
                vel_y: 0,
                landed: false,
            }),
    {
        Robot {
            type_,
            speed,
            direction_x: 1,
            alive: true,
            change_dir_timer: 0,
            fire_timer: 100,
            x,
            y,
            image_index: 0,
            vel_y: 0,
            landed: false,
        }
    }

    /// A robot at (x, y) of the given kind, its walking speed drawn
    /// uniformly from {1, 2, 3}.
    pub fn new(x: i32, y: i32, type_: RobotType) -> (r: Robot)
        ensures
            1 <= r.speed <= 3,
            r == (Robot { speed: r.speed, ..Robot::with_speed_spec(x, y, type_) }),
    {
        let speed = rand_in_range(1, 4) as i32;
        Robot::with_speed(x, y, type_, speed)
    }

    /// The state `with_speed` builds, with a placeholder speed of 0.
    pub open spec fn with_speed_spec(x: i32, y: i32, type_: RobotType) -> Robot {
        Robot {
            type_,
            speed: 0,
            direction_x: 1,
            alive: true,
            change_dir_timer: 0,
            fire_timer: 100,
            x,
            y,
            image_index: 0,
            vel_y: 0,
            landed: false,
        }
    }

    /// The robot's horizontal anchor position.
    pub fn x(&self) -> (v: i32)
        ensures
            v == self.x,
    {
        self.x
    }

    /// The robot's horizontal anchor position, writable.
    pub fn x_mut(&mut self) -> (r: &mut i32)
        ensures
            *r == old(self).x,
            *final(self) == (Robot { x: *final(r), ..*old(self) }),
    {
        &mut self.x
    }

    /// The robot's vertical anchor position.
    pub fn y(&self) -> (v: i32)
        ensures
            v == self.y,
    {
        self.y
    }

    /// The robot's vertical anchor position, writable.
    pub fn y_mut(&mut self) -> (r: &mut i32)
        ensures
            *r == old(self).y,
            *final(self) == (Robot { y: *final(r), ..*old(self) }),
    {
        &mut self.y
    }

    /// The robot's vertical velocity.
    pub fn vel_y(&self) -> (v: i32)
        ensures
            v == self.vel_y,
    {
        self.vel_y
    }

    /// The robot's vertical velocity, writable.
    pub fn vel_y_mut(&mut self) -> (r: &mut i32)
        ensures
            *r == old(self).vel_y,
            *final(self) == (Robot { vel_y: *final(r), ..*old(self) }),
    {
        &mut self.vel_y
    }

    /// Whether the robot stands on the ground.
    pub fn landed(&self) -> (v: bool)
        ensures
            v == self.landed,
    {
        self.landed
    }

    /// Whether the robot stands on the ground, writable.
    pub fn landed_mut(&mut self) -> (r: &mut bool)
        ensures
            *r == old(self).landed,
            *final(self) == (Robot { landed: *final(r), ..*old(self) }),
    {
        &mut self.landed
    }

    /// The sprite-sheet index the robot currently shows.
    pub fn image(&self) -> (v: usize)
        ensures
            v == self.image_index,
    {
        self.image_index
    }

    /// Pixel-by-pixel movement along (dx, dy) for at most `steps` pixels,
    /// stopping where the next pixel is past a wall or solid; reports
    /// whether it was stopped.
    #[verifier::loop_isolation(false)]
    pub fn move_(&mut self, dx: i32, dy: i32, steps: i32, level: &Level) -> (blocked: bool)
        requires
            -1 <= dx <= 1,
            -1 <= dy <= 1,
            0 <= steps <= SPEED_LIMIT,
            -POS_LIMIT - SPEED_LIMIT <= old(self).x <= POS_LIMIT + SPEED_LIMIT,
            -POS_LIMIT - SPEED_LIMIT <= old(self).y <= POS_LIMIT + SPEED_LIMIT,
        ensures
            ({
                let r = move_result_spec(
                    level,
                    old(self).x as int,
                    old(self).y as int,
                    dx as int,
                    dy as int,
                    steps as nat,
                );
                &&& final(self).x == r.0
                &&& final(self).y == r.1
                &&& blocked == r.2
            }),
            old(self).x - steps <= final(self).x <= old(self).x + steps,
            old(self).y - steps <= final(self).y <= old(self).y + steps,
            dx == 0 ==> final(self).x == old(self).x,
            dy == 0 ==> final(self).y == old(self).y,
            final(self).x == old(self).x || LEVEL_X_MIN <= final(self).x <= LEVEL_X_MAX,
            *final(self) == (Robot { x: final(self).x, y: final(self).y, ..*old(self) }),
    {
        let ghost full = move_result_spec(
            level,
            old(self).x as int,
            old(self).y as int,
            dx as int,
            dy as int,
            steps as nat,
        );
        let mut remaining = steps;
        while remaining > 0
            invariant
                0 <= remaining <= steps,
                old(self).x - (steps - remaining) <= self.x <= old(self).x + (steps - remaining),
                old(self).y - (steps - remaining) <= self.y <= old(self).y + (steps - remaining),
                dx == 0 ==> self.x == old(self).x,
                dy == 0 ==> self.y == old(self).y,
                self.x == old(self).x || LEVEL_X_MIN <= self.x <= LEVEL_X_MAX,
                full == move_result_spec(
                    level,
                    self.x as int,
                    self.y as int,
                    dx as int,
                    dy as int,
                    remaining as nat,
                ),
                *self == (Robot { x: self.x, y: self.y, ..*old(self) }),
            decreases remaining,
        {
            let nx = self.x + dx;
            let ny = self.y + dy;
            if level.step_blocked(nx, ny) {
                return true;
            }
            self.x = nx;
            self.y = ny;
            remaining = remaining - 1;
        }
        false
    }

    /// One gravity tick: the fall speed grows by one pixel per tick up to
    /// `MAX_FALL_SPEED`, the robot moves that many pixels vertically pixel
    /// by pixel against the grid, and on contact the velocity zeroes and
    /// the landed flag is set.
    pub fn update_gravity(&mut self, level: &Level)
        requires
            -POS_LIMIT <= old(self).x <= POS_LIMIT,
            -POS_LIMIT <= old(self).y <= POS_LIMIT,
            -SPEED_LIMIT <= old(self).vel_y <= SPEED_LIMIT,
        ensures
            ({
                let v1 = if old(self).vel_y + 1 < MAX_FALL_SPEED {
                    old(self).vel_y + 1
                } else {
                    MAX_FALL_SPEED as int
                };
                let r = move_result_spec(
                    level,
                    old(self).x as int,
                    old(self).y as int,
                    0,
                    sign_spec(v1),
                    (if v1 >= 0 {
                        v1
                    } else {
                        -v1
                    }) as nat,
                );
                &&& final(self).x == r.0
                &&& final(self).y == r.1
                &&& final(self).vel_y == if r.2 {
                    0int
                } else {
                    v1
                }
                &&& final(self).landed == (old(self).landed || r.2)
                &&& *final(self) == (Robot {
                    x: final(self).x,
                    y: final(self).y,
                    vel_y: final(self).vel_y,
                    landed: final(self).landed,
                    ..*old(self)
                })
            }),
            final(self).x == old(self).x,
            old(self).y - SPEED_LIMIT <= final(self).y <= old(self).y + SPEED_LIMIT,
            -POS_LIMIT - SPEED_LIMIT <= final(self).y <= POS_LIMIT + SPEED_LIMIT,
            final(self).direction_x == old(self).direction_x,
            final(self).speed == old(self).speed,
    {
        self.vel_y = if self.vel_y + 1 < MAX_FALL_SPEED {
            self.vel_y + 1
        } else {
            MAX_FALL_SPEED
        };
        let dy = signum(self.vel_y);
        let steps = if self.vel_y >= 0 {
            self.vel_y
        } else {
            -self.vel_y
        };
        let blocked = self.move_(0, dy, steps, level);
        if blocked {
            self.vel_y = 0;
            self.landed = true;
        }
    }
}

/// An orb an aggressive robot can aim at: at the robot's height (its y
/// within the robot's vertical extent) and within `AIM_RANGE_X` pixels
/// horizontally.
pub open spec fn aim_match_spec(orb: Orb, x: int, y: int) -> bool {
    &&& orb.y >= y - ROBOT_HEIGHT
    &&& orb.y < y
    &&& -AIM_RANGE_X < orb.x - x < AIM_RANGE_X
}

/// An orb that traps a robot anchored at (x, y): not already holding an
/// enemy, with the anchor inside its circular bound.
pub open spec fn trap_match_spec(orb: Orb, x: int, y: int) -> bool {
    &&& orb.trapped_enemy_type is None
    &&& (x - orb.x) * (x - orb.x) + (y - orb.y) * (y - orb.y) < ORB_RADIUS * ORB_RADIUS
}

/// The first index at or after k whose orb an aggressive robot at (x, y)
/// can aim at.
pub open spec fn first_aim_index_spec(orbs: Seq<Orb>, k: int, x: int, y: int) -> Option<int>
    decreases orbs.len() - k,
{
    if k < 0 || k >= orbs.len() {
        None
    } else if aim_match_spec(orbs[k], x, y) {
        Some(k)
    } else {
        first_aim_index_spec(orbs, k + 1, x, y)
    }
}

/// The first index at or after k whose orb traps a robot anchored at
/// (x, y).
pub open spec fn first_trap_index_spec(orbs: Seq<Orb>, k: int, x: int, y: int) -> Option<int>
    decreases orbs.len() - k,
{
    if k < 0 || k >= orbs.len() {
        None
    } else if trap_match_spec(orbs[k], x, y) {
        Some(k)
    } else {
        first_trap_index_spec(orbs, k + 1, x, y)
    }
}

/// Trap first-match law: the index the trap scan settles on is a matching
/// orb preceded by no other match, and it is absent only when no orb
/// matches — so one collision check traps exactly one orb, the first in
/// iteration order.
pub proof fn lemma_trap_first_match(orbs: Seq<Orb>, k: int, x: int, y: int)
    requires
        0 <= k <= orbs.len(),
    ensures
        match first_trap_index_spec(orbs, k, x, y) {
            Some(i) => k <= i < orbs.len() && trap_match_spec(orbs[i], x, y) && forall|j: int|
                k <= j < i ==> !trap_match_spec(#[trigger] orbs[j], x, y),
            None => forall|j: int|
                k <= j < orbs.len() ==> !trap_match_spec(#[trigger] orbs[j], x, y),
        },
    decreases orbs.len() - k,
{
    if k < orbs.len() && !trap_match_spec(orbs[k], x, y) {
        lemma_trap_first_match(orbs, k + 1, x, y);
    }
}

/// Every orb of the set has its coordinates within `bound`.
pub open spec fn orbs_within(orbs: Seq<Orb>, bound: int) -> bool {
    forall|i: int|
        0 <= i < orbs.len() ==> -bound <= (#[trigger] orbs[i]).x <= bound && -bound <= orbs[i].y
            <= bound
}

#[verifier::loop_isolation(false)]
fn first_aim_index(orbs: &Vec<Orb>, x: i32, y: i32) -> (r: Option<usize>)
    requires
        orbs_within(orbs@, POS_LIMIT as int),
        -POS_LIMIT - 2 * SPEED_LIMIT <= x <= POS_LIMIT + 2 * SPEED_LIMIT,
        -POS_LIMIT - 2 * SPEED_LIMIT <= y <= POS_LIMIT + 2 * SPEED_LIMIT,
    ensures
        ({
            let s = first_aim_index_spec(orbs@, 0, x as int, y as int);
            match r {
                Some(i) => i < orbs@.len() && s == Some(i as int),
                None => s is None,
            }
        }),
{
    let mut i: usize = 0;
    while i < orbs.len()
        invariant
            0 <= i <= orbs@.len(),
            first_aim_index_spec(orbs@, 0, x as int, y as int) == first_aim_index_spec(
                orbs@,
                i as int,
                x as int,
                y as int,
            ),
        decreases orbs@.len() - i,
    {
        let orb = orbs[i];
        let dx = orb.x - x;
        if orb.y >= y - ROBOT_HEIGHT && orb.y < y && -AIM_RANGE_X < dx && dx < AIM_RANGE_X {
            return Some(i);
        }
        i = i + 1;
    }
    None
}

#[verifier::loop_isolation(false)]
fn trap_match(orb: &Orb, x: i32, y: i32) -> (r: bool)
    requires
        -POS_LIMIT <= orb.x <= POS_LIMIT,
        -POS_LIMIT <= orb.y <= POS_LIMIT,
        -POS_LIMIT - 2 * SPEED_LIMIT <= x <= POS_LIMIT + 2 * SPEED_LIMIT,
        -POS_LIMIT - 2 * SPEED_LIMIT <= y <= POS_LIMIT + 2 * SPEED_LIMIT,
    ensures
        r == trap_match_spec(*orb, x as int, y as int),
{
    if orb.trapped_enemy_type.is_some() {
        return false;
    }
    let dx: i64 = (x - orb.x) as i64;
    let dy: i64 = (y - orb.y) as i64;
    assert(dx * dx + dy * dy < 0x4000_0000_0000_0000 && dx * dx >= 0 && dy * dy >= 0)
        by (nonlinear_arith)
        requires
            -3_000_000 <= dx <= 3_000_000,
            -3_000_000 <= dy <= 3_000_000,
    ;
    assert((ORB_RADIUS as int) * (ORB_RADIUS as int) == 1225) by (nonlinear_arith)
        requires
            ORB_RADIUS == 35,
    ;
    dx * dx + dy * dy < 1225
}

#[verifier::loop_isolation(false)]
fn first_trap_index(orbs: &Vec<Orb>, x: i32, y: i32) -> (r: Option<usize>)
    requires
        orbs_within(orbs@, POS_LIMIT as int),
        -POS_LIMIT - 2 * SPEED_LIMIT <= x <= POS_LIMIT + 2 * SPEED_LIMIT,
        -POS_LIMIT - 2 * SPEED_LIMIT <= y <= POS_LIMIT + 2 * SPEED_LIMIT,
    ensures
        ({
            let s = first_trap_index_spec(orbs@, 0, x as int, y as int);
            match r {
                Some(i) => i < orbs@.len() && s == Some(i as int),
                None => s is None,
            }
        }),
{
    let mut i: usize = 0;
    while i < orbs.len()
        invariant
            0 <= i <= orbs@.len(),
            first_trap_index_spec(orbs@, 0, x as int, y as int) == first_trap_index_spec(
                orbs@,
                i as int,
                x as int,
                y as int,
            ),
        decreases orbs@.len() - i,
    {
        let orb = orbs[i];
        if trap_match(&orb, x, y) {
            return Some(i);
        }
        i = i + 1;
    }
    None
}

/// The direction a pick chooses: pick 0 is left, pick 1 is right, pick 2 —
/// offered only while a player is present — is toward the player.
pub open spec fn candidate_spec(pick: int, player: Option<Player>, x: int) -> int {
    if pick == 0 {
        -1
    } else if pick == 1 {
        1
    } else {
        match player {
            Some(p) => sign_spec(p.x - x),
            None => -1,
        }
    }
}

/// Robot direction bias law: with a player present strictly to one side,
/// exactly two of the three equiprobable picks choose the direction toward
/// the player — a two-in-three bias.
pub proof fn lemma_direction_bias(p: Player, x: int)
    requires
        p.x != x,
    ensures
        (if candidate_spec(0, Some(p), x) == sign_spec(p.x - x) {
            1int
        } else {
            0int
        }) + (if candidate_spec(1, Some(p), x) == sign_spec(p.x - x) {
            1int
        } else {
            0int
        }) + (if candidate_spec(2, Some(p), x) == sign_spec(p.x - x) {
            1int
        } else {
            0int
        }) == 2,
{
}

/// The player as the update relation sees an optional borrowed one.
pub open spec fn player_view(player: Option<&Player>) -> Option<Player> {
    match player {
        Some(p) => Some(*p),
        None => None,
    }
}

/// The sounds one robot tick asks the host to play.
#[derive(Clone, Copy, PartialEq, Eq, Structural, Debug)]
pub struct RobotEvents {
    pub fired_laser: bool,
    pub trapped: bool,
}

/// What one robot tick does, given the three random draws, step by step:
/// gravity and landing; timers; the walk, a wall forcing a direction
/// choice; the possible direction choice; an aggressive robot turning to
/// the first orb in aiming range once its fire timer passes 24; the chance
/// to fire from timer 12 on, ten times as likely while the player's
/// vertical extent overlaps the robot's, or the bolt spawn on the single
/// timer-8 frame; the first matching orb trapping the robot; and the
/// sprite choice.
pub open spec fn robot_update_rel(
    pre: Robot,
    orbs_pre: Seq<Orb>,
    bolts_pre: Seq<Bolt>,
    player: Option<Player>,
    fire_probability_ppm: int,
    game_timer: int,
    level: &Level,
    dir_pick: int,
    new_dir_timer: int,
    fire_draw: int,
    post: Robot,
    orbs_post: Seq<Orb>,
    bolts_post: Seq<Bolt>,
    events: RobotEvents,
) -> bool {
    let v1 = if pre.vel_y + 1 < MAX_FALL_SPEED {
        pre.vel_y + 1
    } else {
        MAX_FALL_SPEED as int
    };
    let g = move_result_spec(
        level,
        pre.x as int,
        pre.y as int,
        0,
        sign_spec(v1),
        (if v1 >= 0 {
            v1
        } else {
            -v1
        }) as nat,
    );
    let vel1 = if g.2 {
        0int
    } else {
        v1
    };
    let landed1 = pre.landed || g.2;
    let fire_t2 = pre.fire_timer + 1;
    let cd2 = pre.change_dir_timer - 1;
    let m = move_result_spec(level, g.0, g.1, pre.direction_x as int, 0, pre.speed as nat);
    let x3 = m.0;
    let y3 = m.1;
    let cd3 = if m.2 {
        0int
    } else {
        cd2
    };
    let chose = cd3 <= 0;
    let dir4 = if chose {
        candidate_spec(dir_pick, player, x3)
    } else {
        pre.direction_x as int
    };
    let cd4 = if chose {
        new_dir_timer
    } else {
        cd3
    };
    let scan = pre.type_ == RobotType::Aggressive && fire_t2 >= 24;
    let aim = if scan {
        first_aim_index_spec(orbs_pre, 0, x3, y3)
    } else {
        None
    };
    let dir5 = match aim {
        Some(i) => sign_spec(orbs_pre[i].x - x3),
        None => dir4,
    };
    let fire_t5 = match aim {
        Some(i) => 0int,
        None => fire_t2,
    };
    let overlap = match player {
        Some(p) => y3 - ROBOT_HEIGHT < p.y && y3 > p.y - PLAYER_HEIGHT,
        None => false,
    };
    let prob_eff = if overlap {
        fire_probability_ppm * 10
    } else {
        fire_probability_ppm
    };
    let fires = fire_t5 >= 12 && fire_draw < prob_eff;
    let fire_t6 = if fires {
        0int
    } else {
        fire_t5
    };
    let trap = first_trap_index_spec(orbs_pre, 0, x3, y3);
    &&& post.x == x3
    &&& post.y == y3
    &&& post.vel_y == vel1
    &&& post.landed == landed1
    &&& post.direction_x == dir5
    &&& post.change_dir_timer == cd4
    &&& post.fire_timer == fire_t6
    &&& post.type_ == pre.type_
    &&& post.speed == pre.speed
    &&& post.image_index == image_index_spec(pre.type_, dir5, fire_t6, game_timer)
    &&& if fire_t5 == 8 {
        bolts_post == bolts_pre.push(
            Bolt {
                x: (x3 + dir5 * BOLT_OFFSET_X) as i32,
                y: (y3 - BOLT_OFFSET_Y) as i32,
                direction_x: dir5 as i32,
            },
        )
    } else {
        bolts_post == bolts_pre
    }
    &&& match trap {
        Some(i) => {
            &&& 0 <= i < orbs_pre.len()
            &&& !post.alive
            &&& orbs_post == orbs_pre.update(
                i,
                Orb {
                    floating: true,
                    trapped_enemy_type: Some(pre.type_),
                    ..orbs_pre[i]
                },
            )
            &&& events.trapped
        },
        None => {
            &&& post.alive == pre.alive
            &&& orbs_post == orbs_pre
            &&& !events.trapped
        },
    }
    &&& events.fired_laser == fires
}

impl Robot {
    /// One robot tick with every random draw handed in, so the whole step
    /// is a function of its arguments: see `robot_update_rel`.
    #[verifier::rlimit(100)]
    #[verifier::spinoff_prover]
    pub fn update_with_draws(
        &mut self,
        bolts: &mut Vec<Bolt>,
        orbs: &mut Vec<Orb>,
        player: Option<&Player>,
        fire_probability_ppm: i64,
        game_timer: i32,
        level: &Level,
        dir_pick: i64,
        new_dir_timer: i64,
        fire_draw: i64,
    ) -> (events: RobotEvents)
        requires
            robot_wf(*old(self)),
            orbs_within(old(orbs)@, POS_LIMIT as int),
            match player {
                Some(p) => -POS_LIMIT <= p.x <= POS_LIMIT && -POS_LIMIT <= p.y <= POS_LIMIT,
                None => true,
            },
            0 <= fire_probability_ppm <= PROB_ONE,
            0 <= game_timer,
            0 <= dir_pick < if player is Some {
                3int
            } else {
                2int
            },
            100 <= new_dir_timer <= 250,
            0 <= fire_draw < PROB_ONE,
        ensures
            final(self).x == old(self).x || LEVEL_X_MIN <= final(self).x <= LEVEL_X_MAX,
            old(self).y - SPEED_LIMIT <= final(self).y <= old(self).y + SPEED_LIMIT,
            -SPEED_LIMIT <= final(self).vel_y <= SPEED_LIMIT,
            final(self).direction_x == -1 || final(self).direction_x == 0 || final(self).direction_x == 1,
            0 <= final(self).fire_timer <= old(self).fire_timer + 1,
            1 <= final(self).change_dir_timer,
            final(self).change_dir_timer <= 250 || final(self).change_dir_timer <= old(self).change_dir_timer - 1,
            final(self).type_ == old(self).type_,
            final(self).speed == old(self).speed,
            final(orbs)@.len() == old(orbs)@.len(),
            orbs_within(final(orbs)@, POS_LIMIT as int),
            robot_update_rel(
                *old(self),
                old(orbs)@,
                old(bolts)@,
                player_view(player),
                fire_probability_ppm as int,
                game_timer as int,
                level,
                dir_pick as int,
                new_dir_timer as int,
                fire_draw as int,
                *final(self),
                final(orbs)@,
                final(bolts)@,
                events,
            ),
    {
        self.update_gravity(level);

        self.change_dir_timer = self.change_dir_timer - 1;
        self.fire_timer = self.fire_timer + 1;

        // Walk in the current direction; a wall forces a direction choice.
        let blocked = self.move_(self.direction_x, 0, self.speed, level);
        if blocked {
            self.change_dir_timer = 0;
        }

        if self.change_dir_timer <= 0 {
            self.direction_x = if dir_pick == 0 {
                -1
            } else if dir_pick == 1 {
                1
            } else {
                match player {
                    Some(p) => signum(p.x - self.x),
                    None => -1,
                }
            };
            self.change_dir_timer = new_dir_timer as i32;
        }

        // An aggressive robot deliberately turns toward the first orb it
        // can shoot at.
        if self.type_ == RobotType::Aggressive && self.fire_timer >= 24 {
            let aim = first_aim_index(orbs, self.x, self.y);
            if let Some(i) = aim {
                let orb = orbs[i];
                self.direction_x = signum(orb.x - self.x);
                self.fire_timer = 0;
            }
        }

        let mut fired = false;
        if self.fire_timer >= 12 {
            let mut prob = fire_probability_ppm;
            if let Some(p) = player {
                if self.y - ROBOT_HEIGHT < p.y && self.y > p.y - PLAYER_HEIGHT {
                    prob = prob * 10;
                }
            }
            if fire_draw < prob {
                self.fire_timer = 0;
                fired = true;
            }
        } else if self.fire_timer == 8 {
            // Frame 8 of the firing animation is when the bolt appears.
            bolts.push(
                Bolt::new(
                    self.x + self.direction_x * BOLT_OFFSET_X,
                    self.y - BOLT_OFFSET_Y,
                    self.direction_x,
                ),
            );
        }

        // The first free orb the robot touches traps it.
        let mut trapped = false;
        let trap = first_trap_index(orbs, self.x, self.y);
        if let Some(i) = trap {
            self.alive = false;
            let orb = orbs[i];
            orbs[i] =
            Orb { floating: true, trapped_enemy_type: Some(self.type_), ..orb };
            trapped = true;
        }

        self.image_index = select_image(self.type_, self.direction_x, self.fire_timer, game_timer);

        RobotEvents { fired_laser: fired, trapped }
    }

    /// One robot tick, drawing its own randomness: a direction pick over
    /// the two or three candidates, a fresh direction timer from
    /// [100, 250], and a fire chance sample. Whatever was drawn, the step
    /// satisfies `robot_update_rel` for draws in those ranges.
    pub fn update(
        &mut self,
        bolts: &mut Vec<Bolt>,
        orbs: &mut Vec<Orb>,
        player: Option<&Player>,
        fire_probability_ppm: i64,
        game_timer: i32,
        level: &Level,
    ) -> (events: RobotEvents)
        requires
            robot_wf(*old(self)),
            orbs_within(old(orbs)@, POS_LIMIT as int),
            match player {
                Some(p) => -POS_LIMIT <= p.x <= POS_LIMIT && -POS_LIMIT <= p.y <= POS_LIMIT,
                None => true,
            },
            0 <= fire_probability_ppm <= PROB_ONE,
            0 <= game_timer,
        ensures
            final(self).x == old(self).x || LEVEL_X_MIN <= final(self).x <= LEVEL_X_MAX,
            old(self).y - SPEED_LIMIT <= final(self).y <= old(self).y + SPEED_LIMIT,
            -SPEED_LIMIT <= final(self).vel_y <= SPEED_LIMIT,
            final(self).direction_x == -1 || final(self).direction_x == 0 || final(self).direction_x == 1,
            0 <= final(self).fire_timer <= old(self).fire_timer + 1,
            1 <= final(self).change_dir_timer,
            final(self).change_dir_timer <= 250 || final(self).change_dir_timer <= old(self).change_dir_timer - 1,
            final(self).type_ == old(self).type_,
            final(self).speed == old(self).speed,
            final(orbs)@.len() == old(orbs)@.len(),
            orbs_within(final(orbs)@, POS_LIMIT as int),
            exists|dir_pick: int, new_dir_timer: int, fire_draw: int|
                {
                    &&& 0 <= dir_pick < if player is Some {
                        3int
                    } else {
                        2int
                    }
                    &&& 100 <= new_dir_timer <= 250
                    &&& 0 <= fire_draw < PROB_ONE
                    &&& #[trigger] robot_update_rel(
                        *old(self),
                        old(orbs)@,
                        old(bolts)@,
                        player_view(player),
                        fire_probability_ppm as int,
                        game_timer as int,
                        level,
                        dir_pick,
                        new_dir_timer,
                        fire_draw,
                        *final(self),
                        final(orbs)@,
                        final(bolts)@,
                        events,
                    )
                },
    {
        let candidates: i64 = if player.is_some() {
            3
        } else {
            2
        };
        let dir_pick = rand_in_range(0, candidates);
        let new_dir_timer = rand_in_range(100, 251);
        let fire_draw = rand_in_range(0, PROB_ONE);
        self.update_with_draws(
            bolts,
            orbs,
            player,
            fire_probability_ppm,
            game_timer,
            level,
            dir_pick,
            new_dir_timer,
            fire_draw,
        )
    }
}

} // verus!
