use rex_runner::game::GameState;
use rex_runner::game::Obstacle;
use rex_runner::render::render_frame;
use rex_runner::render::GROUND_CHAR;
use rex_runner::render::OBSTACLE_CHAR;
use rex_runner::dino::DINO_CHAR_GAME_OVER;
use rex_runner::dino::DINO_CHAR_JUMPING;
use rex_runner::dino::DINO_CHAR_RUNNING;
use rex_runner::DINO_X_POS;
use rex_runner::GROUND_Y;
use rex_runner::SCREEN_HEIGHT;
use rex_runner::SCREEN_WIDTH;

#[test]
fn frame_has_fixed_dimensions() {
    let gs = GameState::new_with_gap(9);
    let grid = render_frame(&gs);
    assert_eq!(grid.len(), SCREEN_HEIGHT as usize);
    for row in &grid {
        assert_eq!(row.len(), SCREEN_WIDTH as usize);
    }
}

#[test]
fn ground_line_spans_full_width() {
    let gs = GameState::new_with_gap(9);
    let grid = render_frame(&gs);
    let ground_row = &grid[(GROUND_Y + 1) as usize];
    assert!(ground_row.iter().all(|&ch| ch == GROUND_CHAR));
}

#[test]
fn running_character_sits_on_ground_row() {
    let gs = GameState::new_with_gap(9);
    let grid = render_frame(&gs);
    assert_eq!(grid[GROUND_Y as usize][DINO_X_POS as usize], DINO_CHAR_RUNNING);
}

#[test]
fn airborne_character_is_drawn_higher() {
    let mut gs = GameState::new_with_gap(9);
    gs.dino.jump();
    gs.update_tick_with_gap(30);
    // one tick into the jump the character is at 10.4 rows, drawn on row 10
    let grid = render_frame(&gs);
    assert_eq!(grid[10][DINO_X_POS as usize], DINO_CHAR_JUMPING);
    assert_eq!(grid[GROUND_Y as usize][DINO_X_POS as usize], ' ');
}

#[test]
fn obstacles_are_drawn_on_ground_row() {
    let mut gs = GameState::new_with_gap(9);
    gs.obstacles.push(Obstacle::new(20));
    gs.obstacles.push(Obstacle::new(40));
    let grid = render_frame(&gs);
    assert_eq!(grid[GROUND_Y as usize][20], OBSTACLE_CHAR);
    assert_eq!(grid[GROUND_Y as usize][40], OBSTACLE_CHAR);
    assert_eq!(grid[GROUND_Y as usize][30], ' ');
}

#[test]
fn obstacle_covers_character_in_shared_cell() {
    let mut gs = GameState::new_with_gap(9);
    gs.obstacles.push(Obstacle::new(DINO_X_POS));
    let grid = render_frame(&gs);
    assert_eq!(grid[GROUND_Y as usize][DINO_X_POS as usize], OBSTACLE_CHAR);
}

#[test]
fn score_line_shows_zero_at_start() {
    let gs = GameState::new_with_gap(9);
    let grid = render_frame(&gs);
    let shown: String = grid[0][..8].iter().collect();
    assert_eq!(shown, "Score: 0");
    assert!(grid[0][8..].iter().all(|&ch| ch == ' '));
}

#[test]
fn score_line_shows_decimal_digits() {
    let mut gs = GameState::new_with_gap(9);
    gs.score = 1234;
    let grid = render_frame(&gs);
    let shown: String = grid[0][..11].iter().collect();
    assert_eq!(shown, "Score: 1234");
}

#[test]
fn game_over_overlay_is_centered() {
    let mut gs = GameState::new_with_gap(3);
    gs.obstacles.push(Obstacle::new(6));
    gs.update_tick_with_gap(30);
    assert!(gs.game_over);
    let grid = render_frame(&gs);
    let msg = "GAME OVER! (r: restart, q: quit)";
    let msg_x = ((SCREEN_WIDTH as usize) - msg.len()) / 2;
    let row = (SCREEN_HEIGHT / 2) as usize;
    let shown: String = grid[row][msg_x..msg_x + msg.len()].iter().collect();
    assert_eq!(shown, msg);
    assert!(grid[row][..msg_x].iter().all(|&ch| ch == ' '));
    assert!(grid[row][msg_x + msg.len()..].iter().all(|&ch| ch == ' '));
    // the character shows the game-over face under the collided obstacle's cell
    assert_eq!(grid[GROUND_Y as usize][DINO_X_POS as usize], OBSTACLE_CHAR);
}

#[test]
fn game_over_face_without_overlapping_obstacle() {
    let mut gs = GameState::new_with_gap(3);
    gs.obstacles.push(Obstacle::new(6));
    gs.update_tick_with_gap(30);
    assert!(gs.game_over);
    gs.obstacles.clear();
    let grid = render_frame(&gs);
    assert_eq!(grid[GROUND_Y as usize][DINO_X_POS as usize], DINO_CHAR_GAME_OVER);
}
