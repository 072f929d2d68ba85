use rex_runner::game::Command;
use rex_runner::game::GameState;
use rex_runner::game::Obstacle;
use rex_runner::DEFAULT_GAME_TICK_MS;
use rex_runner::FASTER_GAME_TICK_MS;
use rex_runner::OBSTACLE_MAX_SPAWN_GAP_FRAMES;
use rex_runner::OBSTACLE_MIN_SPAWN_GAP_FRAMES;
use rex_runner::SCREEN_WIDTH;
use rex_runner::SPEED_INCREASE_THRESHOLD;

/// Drive the state into game over: an obstacle one column right of the
/// character reaches it on the next tick while the character is grounded.
fn run_into_obstacle(gs: &mut GameState) {
    gs.obstacles.push(Obstacle::new(6));
    gs.update_tick_with_gap(30);
    assert!(gs.game_over);
}

#[test]
fn fresh_state_is_initial() {
    let gs = GameState::new_with_gap(7);
    assert_eq!(gs.score, 0);
    assert!(!gs.game_over);
    assert!(gs.obstacles.is_empty());
    assert_eq!(gs.frames_until_next_obstacle, 7);
    assert_eq!(gs.current_game_tick_ms, DEFAULT_GAME_TICK_MS);
    assert!(!gs.speed_boost_applied);
    assert!(!gs.dino.is_jumping);
    assert_eq!(gs.dino.y_pos, 120);
}

#[test]
fn sampled_spawn_gap_is_in_range() {
    for _ in 0..100 {
        let gs = GameState::new();
        assert!(gs.frames_until_next_obstacle >= OBSTACLE_MIN_SPAWN_GAP_FRAMES);
        assert!(gs.frames_until_next_obstacle <= OBSTACLE_MAX_SPAWN_GAP_FRAMES);
    }
}

#[test]
fn score_increments_per_tick_and_freezes_on_game_over() {
    let mut gs = GameState::new_with_gap(200);
    for expected in 1..=100u32 {
        gs.update_tick_with_gap(30);
        assert_eq!(gs.score, expected);
    }
    run_into_obstacle(&mut gs);
    let frozen = gs.score;
    for _ in 0..10 {
        gs.update_tick_with_gap(30);
        assert_eq!(gs.score, frozen);
    }
}

#[test]
fn speed_boost_fires_once_at_threshold() {
    let mut gs = GameState::new_with_gap(10);
    for _ in 0..(SPEED_INCREASE_THRESHOLD + 50) {
        // keep the field clear so the run lasts past the threshold
        gs.obstacles.clear();
        gs.update_tick_with_gap(30);
        if gs.score < SPEED_INCREASE_THRESHOLD {
            assert_eq!(gs.current_game_tick_ms, DEFAULT_GAME_TICK_MS);
            assert!(!gs.speed_boost_applied);
        } else {
            assert_eq!(gs.current_game_tick_ms, FASTER_GAME_TICK_MS);
            assert!(gs.speed_boost_applied);
        }
    }
    assert!(!gs.game_over);
    assert_eq!(gs.score, SPEED_INCREASE_THRESHOLD + 50);
}

#[test]
fn obstacles_scroll_left_and_fall_off() {
    let mut gs = GameState::new_with_gap(10);
    gs.obstacles.push(Obstacle::new(0));
    gs.obstacles.push(Obstacle::new(3));
    gs.obstacles.push(Obstacle::new(59));
    gs.update_tick_with_gap(30);
    let cols: Vec<u16> = gs.obstacles.iter().map(|o| o.x_pos).collect();
    assert_eq!(cols, vec![2, 58]);
    assert_eq!(gs.frames_until_next_obstacle, 9);
}

#[test]
fn obstacle_spawns_when_countdown_runs_out() {
    let mut gs = GameState::new_with_gap(0);
    gs.update_tick_with_gap(33);
    assert_eq!(gs.obstacles.len(), 1);
    assert_eq!(gs.obstacles[0].x_pos, SCREEN_WIDTH - 1);
    assert_eq!(gs.frames_until_next_obstacle, 33);
}

#[test]
fn sampled_tick_spawns_within_gap_range() {
    let mut gs = GameState::new_with_gap(0);
    gs.update_tick();
    assert_eq!(gs.obstacles.len(), 1);
    assert!(gs.frames_until_next_obstacle >= OBSTACLE_MIN_SPAWN_GAP_FRAMES);
    assert!(gs.frames_until_next_obstacle <= OBSTACLE_MAX_SPAWN_GAP_FRAMES);
}

#[test]
fn grounded_collision_sets_game_over() {
    let mut gs = GameState::new_with_gap(3);
    gs.obstacles.push(Obstacle::new(6));
    assert!(!gs.game_over);
    gs.update_tick_with_gap(30);
    assert!(gs.game_over);
    assert_eq!(gs.score, 1);
}

#[test]
fn airborne_character_clears_obstacle() {
    let mut gs = GameState::new_with_gap(100);
    gs.obstacles.push(Obstacle::new(6));
    gs.handle_command(Command::Jump);
    for _ in 0..20 {
        gs.update_tick_with_gap(30);
        assert!(!gs.game_over);
    }
    assert!(gs.obstacles.is_empty());
    assert!(!gs.dino.is_jumping);
}

#[test]
fn restart_after_game_over_resets_everything() {
    let mut gs = GameState::new_with_gap(5);
    for _ in 0..3 {
        gs.update_tick_with_gap(30);
    }
    run_into_obstacle(&mut gs);
    gs.handle_command(Command::Restart);
    assert!(!gs.game_over);
    assert_eq!(gs.score, 0);
    assert!(gs.obstacles.is_empty());
    assert_eq!(gs.current_game_tick_ms, DEFAULT_GAME_TICK_MS);
    assert!(!gs.speed_boost_applied);
    assert!(gs.frames_until_next_obstacle >= OBSTACLE_MIN_SPAWN_GAP_FRAMES);
    assert!(gs.frames_until_next_obstacle <= OBSTACLE_MAX_SPAWN_GAP_FRAMES);
    assert!(!gs.dino.is_jumping);
    assert_eq!(gs.dino.y_pos, 120);
}

#[test]
fn jump_command_ignored_once_game_over() {
    let mut gs = GameState::new_with_gap(5);
    run_into_obstacle(&mut gs);
    gs.handle_command(Command::Jump);
    assert!(!gs.dino.is_jumping);
    assert!(gs.game_over);
}

#[test]
fn restart_command_ignored_while_running() {
    let mut gs = GameState::new_with_gap(5);
    gs.update_tick_with_gap(30);
    gs.update_tick_with_gap(30);
    let score = gs.score;
    gs.handle_command(Command::Restart);
    assert_eq!(gs.score, score);
    assert!(!gs.game_over);
}

#[test]
fn jump_command_applies_while_running() {
    let mut gs = GameState::new_with_gap(5);
    gs.handle_command(Command::Jump);
    assert!(gs.dino.is_jumping);
    assert_eq!(gs.dino.velocity_y, -16);
}
