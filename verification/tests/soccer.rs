use arcade_core::soccer::{Ball, Goal, GOAL_ACTIVE_DISTANCE, HALF_LEVEL_W, LEVEL_H};

#[test]
fn goals_sit_on_their_team_edge() {
    let top = Goal::new(0);
    assert_eq!(top.team(), 0);
    assert_eq!(top.x, HALF_LEVEL_W);
    assert_eq!(top.y, 0);
    let bottom = Goal::new(1);
    assert_eq!(bottom.team(), 1);
    assert_eq!(bottom.x, HALF_LEVEL_W);
    assert_eq!(bottom.y, LEVEL_H);
}

#[test]
fn goal_is_active_within_five_hundred_pixels_vertically() {
    let goal = Goal::new(0);
    let near = Ball { x: 900_000_000, y: 499_999_999 };
    assert!(goal.active(&near));
    let below = Ball { x: 0, y: -499_999_999 };
    assert!(goal.active(&below));
    let at_threshold = Ball { x: 0, y: GOAL_ACTIVE_DISTANCE };
    assert!(!goal.active(&at_threshold));
    let far = Ball { x: 0, y: 900_000_000 };
    assert!(!goal.active(&far));
}

#[test]
fn bottom_goal_measures_from_its_own_position() {
    let goal = Goal::new(1);
    let near = Ball { x: 0, y: LEVEL_H - 100_000_000 };
    assert!(goal.active(&near));
    let far = Ball { x: 0, y: LEVEL_H - 600_000_000 };
    assert!(!goal.active(&far));
}
