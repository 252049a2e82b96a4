use copter::border::BorderTileCurrentHeight;
use copter::constants::{DEFAULT_BORDERTILE_HEIGHT, OBSTACLE_SPAWN_X};
use copter::obstacle::{obstacle_movement, spawn_obstacles, Obstacle};
use copter::state::GameState;

fn default_heights() -> BorderTileCurrentHeight {
    BorderTileCurrentHeight {
        top_border: DEFAULT_BORDERTILE_HEIGHT,
        bottom_border: DEFAULT_BORDERTILE_HEIGHT,
    }
}

#[test]
fn spawner_fires_inside_band() {
    let mut state = GameState::new();
    let heights = default_heights();
    let mut obstacles: Vec<Obstacle> = Vec::new();
    spawn_obstacles(&mut state, &heights, &mut obstacles, 1250);
    assert_eq!(obstacles.len(), 1);
    assert_eq!(obstacles[0].x, OBSTACLE_SPAWN_X);
    // band at default heights: [-360 + 75 + 125, 360 - 75 - 125) px
    assert!(obstacles[0].y >= -160_000_000);
    assert!(obstacles[0].y < 160_000_000);
    assert_eq!(state.obstacle_timer.elapsed, 0);
}

#[test]
fn spawner_idle_before_period() {
    let mut state = GameState::new();
    let heights = default_heights();
    let mut obstacles: Vec<Obstacle> = Vec::new();
    spawn_obstacles(&mut state, &heights, &mut obstacles, 1249);
    assert_eq!(obstacles.len(), 0);
    assert_eq!(state.obstacle_timer.elapsed, 1249);
}

#[test]
fn empty_band_skips_spawn() {
    // heights so large the gap band is inverted: the spawner must detect
    // this before drawing and skip, though its timer fired
    let mut state = GameState::new();
    let heights = BorderTileCurrentHeight {
        top_border: 300_000_000,
        bottom_border: 300_000_000,
    };
    let mut obstacles: Vec<Obstacle> = Vec::new();
    spawn_obstacles(&mut state, &heights, &mut obstacles, 1250);
    assert_eq!(obstacles.len(), 0);
    assert_eq!(state.obstacle_timer.elapsed, 0);
}

#[test]
fn spawner_halts_when_game_over() {
    let mut state = GameState::new();
    state.game_over = true;
    let heights = default_heights();
    let mut obstacles: Vec<Obstacle> = Vec::new();
    spawn_obstacles(&mut state, &heights, &mut obstacles, 1250);
    assert_eq!(obstacles.len(), 0);
    // not even the timer advances
    assert_eq!(state.obstacle_timer.elapsed, 0);
}

#[test]
fn movement_scrolls_left_exactly() {
    let mut obstacles = vec![Obstacle { x: 0, y: 5_000_000 }];
    obstacle_movement(&mut obstacles, 100, false);
    assert_eq!(obstacles.len(), 1);
    assert_eq!(obstacles[0].x, -60_000_000);
    assert_eq!(obstacles[0].y, 5_000_000);
}

#[test]
fn movement_frozen_when_game_over() {
    let mut obstacles = vec![Obstacle { x: 0, y: 0 }];
    obstacle_movement(&mut obstacles, 100, true);
    assert_eq!(obstacles.len(), 1);
    assert_eq!(obstacles[0].x, 0);
}

#[test]
fn obstacle_culled_after_crossing_window() {
    // spawned just past the right edge, scrolled for the window-crossing
    // time and a little over: first still alive, then destroyed
    let mut obstacles = vec![Obstacle { x: OBSTACLE_SPAWN_X, y: 0 }];
    // 1707 ms at 600 px/s is just over one window width of travel
    obstacle_movement(&mut obstacles, 1707, false);
    assert_eq!(obstacles.len(), 1);
    assert_eq!(obstacles[0].x, 562_000_000 - 600_000 * 1707);
    // one more second carries it past the culling threshold
    obstacle_movement(&mut obstacles, 1000, false);
    assert_eq!(obstacles.len(), 0);
}

#[test]
fn movement_culls_only_fully_off_screen() {
    let mut obstacles = vec![
        Obstacle { x: -501_000_000, y: 0 },
        Obstacle { x: -503_000_000, y: 0 },
    ];
    // threshold is -512 - 50 = -562 px: -561 px survives, -563 px does not
    obstacle_movement(&mut obstacles, 100, false);
    assert_eq!(obstacles.len(), 1);
    assert_eq!(obstacles[0].x, -561_000_000);
}
