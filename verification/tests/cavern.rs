use arcade_core::cavern::{
    select_image, Bolt, Level, Orb, Player, Robot, RobotType, GRID_BLOCK_SIZE, LEVEL_X_MAX,
    MAX_FALL_SPEED,
};

/// An empty level: nothing to land on but the side walls.
fn open_level() -> Level {
    Level { cells: Vec::new() }
}

/// A level whose row 5 (pixels 125..149) is solid all the way across.
fn floored_level() -> Level {
    let mut cells: Vec<Vec<bool>> = Vec::new();
    for row in 0..30 {
        cells.push(vec![row == 5; 40]);
    }
    Level { cells }
}

/// A robot standing on the floor of `floored_level`, anchor at y = 124.
fn grounded_robot(type_: RobotType, speed: i32) -> Robot {
    let mut r = Robot::with_speed(100, 124, type_, speed);
    r.landed = true;
    r
}

#[test]
fn val_gives_the_sprite_row_of_each_kind() {
    assert_eq!(RobotType::Aggressive.val(), 0);
    assert_eq!(RobotType::Normal.val(), 1);
}

#[test]
fn with_speed_builds_the_default_state() {
    let r = Robot::with_speed(10, 20, RobotType::Aggressive, 2);
    assert_eq!(r.x, 10);
    assert_eq!(r.y, 20);
    assert_eq!(r.speed, 2);
    assert_eq!(r.direction_x, 1);
    assert!(r.alive);
    assert_eq!(r.change_dir_timer, 0);
    assert_eq!(r.fire_timer, 100);
    assert_eq!(r.vel_y, 0);
    assert!(!r.landed);
}

#[test]
fn new_draws_a_walking_speed_between_one_and_three() {
    for _ in 0..100 {
        let r = Robot::new(10, 20, RobotType::Normal);
        assert!(r.speed >= 1 && r.speed <= 3);
        assert_eq!(r.direction_x, 1);
        assert!(r.alive);
    }
}

#[test]
fn solid_cells_answer_by_grid_block() {
    let level = floored_level();
    assert!(level.solid_at(0, 125));
    assert!(level.solid_at(999, 149));
    assert!(!level.solid_at(0, 124));
    assert!(!level.solid_at(0, 150));
    assert!(!level.solid_at(-1, 125));
    assert!(!level.solid_at(0, -1));
    assert!(!level.solid_at(GRID_BLOCK_SIZE * 40, 125));
}

#[test]
fn walking_stops_at_the_side_wall() {
    let level = open_level();
    let mut r = Robot::with_speed(LEVEL_X_MAX - 1, 100, RobotType::Normal, 0);
    let blocked = r.move_(1, 0, 3, &level);
    assert!(blocked);
    assert_eq!(r.x, LEVEL_X_MAX);
    // With room, the walk covers the full distance unhindered.
    let mut r = Robot::with_speed(100, 100, RobotType::Normal, 0);
    let blocked = r.move_(1, 0, 3, &level);
    assert!(!blocked);
    assert_eq!(r.x, 103);
}

#[test]
fn gravity_accelerates_to_the_cap_and_lands_on_the_floor() {
    let level = open_level();
    let mut r = Robot::with_speed(100, 0, RobotType::Normal, 1);
    r.update_gravity(&level);
    assert_eq!(r.vel_y, 1);
    assert_eq!(r.y, 1);
    assert!(!r.landed);
    for _ in 0..20 {
        r.update_gravity(&level);
    }
    assert_eq!(r.vel_y, MAX_FALL_SPEED);
    // Falling onto the floor stops at its top edge and sets the flag.
    let level = floored_level();
    let mut r = Robot::with_speed(100, 120, RobotType::Normal, 1);
    r.update_gravity(&level);
    assert_eq!(r.y, 121);
    r.update_gravity(&level);
    r.update_gravity(&level);
    assert_eq!(r.y, 124);
    assert!(r.landed);
    assert_eq!(r.vel_y, 0);
}

#[test]
fn trap_takes_the_first_overlapping_orb_only() {
    // Two overlapping untrapped orbs both hold the robot's anchor: exactly
    // the first in iteration order traps it.
    let level = floored_level();
    let mut r = grounded_robot(RobotType::Normal, 0);
    r.change_dir_timer = 5;
    let mut bolts: Vec<Bolt> = Vec::new();
    let mut orbs = vec![
        Orb { x: 100, y: 120, trapped_enemy_type: None, floating: false },
        Orb { x: 102, y: 124, trapped_enemy_type: None, floating: false },
    ];
    let events = r.update_with_draws(&mut bolts, &mut orbs, None, 0, 0, &level, 0, 100, 0);
    assert!(events.trapped);
    assert!(!r.alive);
    assert_eq!(orbs[0].trapped_enemy_type, Some(RobotType::Normal));
    assert!(orbs[0].floating);
    assert_eq!(orbs[1].trapped_enemy_type, None);
    assert!(!orbs[1].floating);
}

#[test]
fn trap_skips_an_orb_that_already_holds_an_enemy() {
    let level = floored_level();
    let mut r = grounded_robot(RobotType::Aggressive, 0);
    r.change_dir_timer = 5;
    r.fire_timer = 5;
    let mut bolts: Vec<Bolt> = Vec::new();
    let mut orbs = vec![
        Orb { x: 100, y: 120, trapped_enemy_type: Some(RobotType::Normal), floating: true },
        Orb { x: 102, y: 124, trapped_enemy_type: None, floating: false },
    ];
    let events = r.update_with_draws(&mut bolts, &mut orbs, None, 0, 0, &level, 0, 100, 0);
    assert!(events.trapped);
    assert!(!r.alive);
    assert_eq!(orbs[0].trapped_enemy_type, Some(RobotType::Normal));
    assert_eq!(orbs[1].trapped_enemy_type, Some(RobotType::Aggressive));
    assert!(orbs[1].floating);
}

#[test]
fn robot_survives_a_tick_with_no_orb_in_reach() {
    let level = floored_level();
    let mut r = grounded_robot(RobotType::Normal, 0);
    r.change_dir_timer = 5;
    let mut bolts: Vec<Bolt> = Vec::new();
    let mut orbs = vec![Orb { x: 500, y: 124, trapped_enemy_type: None, floating: false }];
    let events = r.update_with_draws(&mut bolts, &mut orbs, None, 0, 0, &level, 0, 100, 0);
    assert!(!events.trapped);
    assert!(r.alive);
    assert_eq!(orbs[0].trapped_enemy_type, None);
}

#[test]
fn wall_contact_forces_a_direction_choice() {
    // Walking right into the wall zeroes the timer, so a new direction is
    // chosen this very tick: pick 0 is left.
    let level = floored_level();
    let mut r = Robot::with_speed(LEVEL_X_MAX - 1, 124, RobotType::Normal, 3);
    r.change_dir_timer = 50;
    let mut bolts: Vec<Bolt> = Vec::new();
    let mut orbs: Vec<Orb> = Vec::new();
    r.update_with_draws(&mut bolts, &mut orbs, None, 0, 0, &level, 0, 137, 0);
    assert_eq!(r.direction_x, -1);
    assert_eq!(r.change_dir_timer, 137);
}

#[test]
fn aggressive_robot_turns_to_the_first_orb_in_range() {
    let level = floored_level();
    let mut r = grounded_robot(RobotType::Aggressive, 0);
    r.change_dir_timer = 5;
    // fire timer 100 -> 101 on this tick: past the aiming threshold.
    let mut bolts: Vec<Bolt> = Vec::new();
    // First orb out of horizontal range; second in range, to the left, and
    // outside trapping distance.
    let mut orbs = vec![
        Orb { x: 500, y: 100, trapped_enemy_type: None, floating: false },
        Orb { x: 50, y: 100, trapped_enemy_type: None, floating: false },
    ];
    let events = r.update_with_draws(&mut bolts, &mut orbs, None, 0, 0, &level, 0, 100, 0);
    assert_eq!(r.direction_x, -1);
    assert_eq!(r.fire_timer, 0);
    assert!(!events.fired_laser);
    assert!(!events.trapped);
}

#[test]
fn normal_robot_never_aims_at_orbs() {
    let level = floored_level();
    let mut r = grounded_robot(RobotType::Normal, 0);
    r.change_dir_timer = 5;
    let mut bolts: Vec<Bolt> = Vec::new();
    let mut orbs = vec![Orb { x: 50, y: 100, trapped_enemy_type: None, floating: false }];
    r.update_with_draws(&mut bolts, &mut orbs, None, 0, 0, &level, 0, 100, 0);
    assert_eq!(r.direction_x, 1);
    assert_eq!(r.fire_timer, 101);
}

#[test]
fn bolt_spawns_on_the_eighth_firing_frame() {
    let level = floored_level();
    let mut r = grounded_robot(RobotType::Normal, 0);
    r.change_dir_timer = 5;
    r.fire_timer = 7;
    let mut bolts: Vec<Bolt> = Vec::new();
    let mut orbs: Vec<Orb> = Vec::new();
    let events = r.update_with_draws(&mut bolts, &mut orbs, None, 0, 0, &level, 0, 100, 0);
    assert!(!events.fired_laser);
    assert_eq!(bolts.len(), 1);
    assert_eq!(bolts[0], Bolt { x: 120, y: 86, direction_x: 1 });
    // On any other early frame, no bolt appears.
    let mut r = grounded_robot(RobotType::Normal, 0);
    r.change_dir_timer = 5;
    r.fire_timer = 8;
    let mut bolts: Vec<Bolt> = Vec::new();
    r.update_with_draws(&mut bolts, &mut orbs, None, 0, 0, &level, 0, 100, 0);
    assert_eq!(bolts.len(), 0);
}

#[test]
fn certain_fire_probability_always_fires() {
    let level = floored_level();
    let mut r = grounded_robot(RobotType::Normal, 0);
    r.change_dir_timer = 5;
    let mut bolts: Vec<Bolt> = Vec::new();
    let mut orbs: Vec<Orb> = Vec::new();
    let events = r.update(&mut bolts, &mut orbs, None, 1_000_000, 0, &level);
    assert!(events.fired_laser);
    assert_eq!(r.fire_timer, 0);
}

#[test]
fn zero_fire_probability_never_fires() {
    let level = floored_level();
    let mut r = grounded_robot(RobotType::Normal, 0);
    r.change_dir_timer = 5;
    let player = Player { x: 120, y: 124 };
    let mut bolts: Vec<Bolt> = Vec::new();
    let mut orbs: Vec<Orb> = Vec::new();
    let events = r.update(&mut bolts, &mut orbs, Some(&player), 0, 0, &level);
    assert!(!events.fired_laser);
    assert_eq!(r.fire_timer, 101);
}

#[test]
fn direction_choice_favours_the_player_two_in_three() {
    // With a player fixed to the right, each forced direction choice picks
    // from {-1, +1, toward-the-player}: the bias toward the player is 2/3.
    let level = floored_level();
    let mut r = grounded_robot(RobotType::Normal, 0);
    let player = Player { x: 500, y: 124 };
    let mut bolts: Vec<Bolt> = Vec::new();
    let mut orbs: Vec<Orb> = Vec::new();
    let trials = 10_000;
    let mut toward = 0u32;
    for _ in 0..trials {
        r.change_dir_timer = 0;
        r.fire_timer = 50;
        r.update(&mut bolts, &mut orbs, Some(&player), 0, 0, &level);
        if r.direction_x == 1 {
            toward += 1;
        }
    }
    // Mean 6667, standard deviation about 47: these bounds sit eight
    // standard deviations out.
    assert!(toward > 6290, "toward-player choices: {toward}");
    assert!(toward < 7045, "toward-player choices: {toward}");
}

#[test]
fn sprite_index_is_a_pure_function_of_its_inputs() {
    // Walking frames: kind row, facing block, then the global tick cycle.
    assert_eq!(select_image(RobotType::Normal, 1, 12, 0), 25);
    assert_eq!(select_image(RobotType::Normal, 1, 12, 13), 28);
    assert_eq!(select_image(RobotType::Normal, -1, 12, 13), 20);
    assert_eq!(select_image(RobotType::Aggressive, 1, 12, 13), 12);
    // Firing frames: 5 + fire_timer / 4 while the timer is under 12.
    assert_eq!(select_image(RobotType::Normal, 1, 0, 13), 29);
    assert_eq!(select_image(RobotType::Normal, 1, 11, 13), 31);
    assert_eq!(select_image(RobotType::Aggressive, -1, 4, 99), 6);
}

#[test]
fn accessors_mirror_the_fields() {
    let mut r = Robot::with_speed(10, 20, RobotType::Normal, 2);
    assert_eq!(r.x(), 10);
    assert_eq!(r.y(), 20);
    assert_eq!(r.vel_y(), 0);
    assert!(!r.landed());
    assert_eq!(r.image(), 0);
    *r.x_mut() = 11;
    *r.y_mut() = 21;
    *r.vel_y_mut() = 3;
    *r.landed_mut() = true;
    assert_eq!(r.x(), 11);
    assert_eq!(r.y(), 21);
    assert_eq!(r.vel_y(), 3);
    assert!(r.landed());
}
