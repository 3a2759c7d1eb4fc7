use arcade_core::pong::{
    update_score, Ball, Paddle, Rect, BALL_RADIUS, DIR_ONE, PADDLE_H, PADDLE_SPEED,
};

const SCREEN_W: i64 = 800_000_000;
const SCREEN_H: i64 = 600_000_000;

fn paddle_at(y: i64) -> Paddle {
    Paddle::new(Rect { x: 20_000_000, y, w: 20_000_000, h: PADDLE_H })
}

#[test]
fn paddle_moves_up_and_down() {
    let mut p = paddle_at(300_000_000);
    p.movement(true, false, SCREEN_H);
    assert_eq!(p.rect.y, 300_000_000 - PADDLE_SPEED);
    p.movement(false, true, SCREEN_H);
    assert_eq!(p.rect.y, 300_000_000);
    // Up takes priority when both are held.
    p.movement(true, true, SCREEN_H);
    assert_eq!(p.rect.y, 300_000_000 - PADDLE_SPEED);
    // No input: no move.
    p.movement(false, false, SCREEN_H);
    assert_eq!(p.rect.y, 300_000_000 - PADDLE_SPEED);
}

#[test]
fn paddle_clamps_at_both_bounds() {
    let mut p = paddle_at(5_000_000);
    p.movement(true, false, SCREEN_H);
    assert_eq!(p.rect.y, 0);
    let mut p = paddle_at(SCREEN_H - PADDLE_H - 5_000_000);
    p.movement(false, true, SCREEN_H);
    assert_eq!(p.rect.y, SCREEN_H - PADDLE_H);
}

#[test]
fn paddle_stays_in_range_over_any_input_sequence() {
    let mut p = paddle_at(300_000_000);
    let inputs = [
        (true, false),
        (true, true),
        (false, true),
        (false, false),
        (true, false),
        (false, true),
    ];
    for round in 0..200usize {
        let (up, down) = inputs[round % inputs.len()];
        p.movement(up, down, SCREEN_H);
        assert!(p.rect.y >= 0);
        assert!(p.rect.y <= SCREEN_H - PADDLE_H);
    }
    // A long held press pins the paddle at the top and keeps it there.
    for _ in 0..100 {
        p.movement(true, false, SCREEN_H);
        assert!(p.rect.y >= 0);
    }
    assert_eq!(p.rect.y, 0);
}

#[test]
fn ball_integrates_position() {
    let mut b = Ball::with_direction(400_000_000, 300_000_000, BALL_RADIUS, 500_000, -250_000);
    b.move_ball(SCREEN_H);
    assert_eq!(b.x, 400_000_000 + 500_000 * 12);
    assert_eq!(b.y, 300_000_000 - 250_000 * 12);
    assert_eq!(b.dir_x, 500_000);
    assert_eq!(b.dir_y, -250_000);
}

#[test]
fn ball_bounces_once_per_wall_contact() {
    // Heading down just above the bottom bound: one tick flips dir_y once.
    let mut b = Ball::with_direction(
        400_000_000,
        SCREEN_H - BALL_RADIUS - 1_000_000,
        BALL_RADIUS,
        0,
        500_000,
    );
    b.move_ball(SCREEN_H);
    assert_eq!(b.dir_y, -500_000);
    // Now heading up, away from the wall: the next tick does not flip again.
    b.move_ball(SCREEN_H);
    assert_eq!(b.dir_y, -500_000);
    // Top wall: crossing y < 0 flips back.
    let mut b = Ball::with_direction(400_000_000, 1_000_000, BALL_RADIUS, 0, -500_000);
    b.move_ball(SCREEN_H);
    assert_eq!(b.dir_y, 500_000);
}

#[test]
fn ball_reflects_off_paddle() {
    let paddle_left = Rect { x: 20_000_000, y: 280_000_000, w: 20_000_000, h: PADDLE_H };
    let paddle_right = Rect { x: 760_000_000, y: 280_000_000, w: 20_000_000, h: PADDLE_H };
    let mut b = Ball::with_direction(30_000_000, 300_000_000, BALL_RADIUS, -400_000, 0);
    b.collision_with_paddle(&paddle_left, &paddle_right);
    assert_eq!(b.dir_x, 400_000);
    // Far from both paddles: nothing changes.
    let mut b = Ball::with_direction(400_000_000, 300_000_000, BALL_RADIUS, -400_000, 0);
    b.collision_with_paddle(&paddle_left, &paddle_right);
    assert_eq!(b.dir_x, -400_000);
}

#[test]
fn crossing_left_edge_scores_for_the_right_side() {
    // Ball at the centre heading left and down at (-0.5, 0.5).
    let mut b = Ball::with_direction(SCREEN_W / 2, SCREEN_H / 2, BALL_RADIUS, -500_000, 500_000);
    let mut scores = (0u32, 0u32);
    let mut ticks = 0;
    while b.x >= 0 {
        b.move_ball(SCREEN_H);
        update_score(&mut b, &mut scores, SCREEN_W, SCREEN_H);
        ticks += 1;
        assert!(ticks < 100_000, "ball never left the screen");
        if scores.1 > 0 {
            break;
        }
    }
    assert_eq!(scores, (0, 1));
    // Respawned at the centre with a freshly drawn direction.
    assert_eq!(b.x, SCREEN_W / 2);
    assert_eq!(b.y, SCREEN_H / 2);
    assert_eq!(b.r, BALL_RADIUS);
    assert!(b.dir_x >= -DIR_ONE && b.dir_x < DIR_ONE);
    assert!(b.dir_y >= -DIR_ONE && b.dir_y < DIR_ONE);
}

#[test]
fn crossing_right_edge_scores_for_the_left_side() {
    let mut b = Ball::with_direction(SCREEN_W + 1, SCREEN_H / 2, BALL_RADIUS, 500_000, 0);
    let mut scores = (3u32, 7u32);
    update_score(&mut b, &mut scores, SCREEN_W, SCREEN_H);
    assert_eq!(scores, (4, 7));
    assert_eq!(b.x, SCREEN_W / 2);
}

#[test]
fn ball_in_play_leaves_score_alone() {
    let mut b = Ball::with_direction(400_000_000, 300_000_000, BALL_RADIUS, 500_000, 0);
    let mut scores = (2u32, 2u32);
    update_score(&mut b, &mut scores, SCREEN_W, SCREEN_H);
    assert_eq!(scores, (2, 2));
    assert_eq!(b.x, 400_000_000);
}

#[test]
fn fresh_ball_directions_stay_in_the_drawn_range() {
    for _ in 0..200 {
        let b = Ball::new(400_000_000, 300_000_000, BALL_RADIUS);
        assert_eq!(b.x, 400_000_000);
        assert!(b.dir_x >= -DIR_ONE && b.dir_x < DIR_ONE);
        assert!(b.dir_y >= -DIR_ONE && b.dir_y < DIR_ONE);
    }
}
