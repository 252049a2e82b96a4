use copter::border::BorderTile;
use copter::collision::{collide, collision_detection};
use copter::constants::{
    COPTER_HEIGHT, COPTER_SPAWN_X, COPTER_WIDTH, OBSTACLE_HEIGHT, OBSTACLE_WIDTH,
};
use copter::copter::Copter;
use copter::obstacle::Obstacle;
use copter::state::GameState;

#[test]
fn overlapping_boxes_collide() {
    assert!(collide(0, 0, COPTER_WIDTH, COPTER_HEIGHT, 74_000_000, 0, OBSTACLE_WIDTH,
        OBSTACLE_HEIGHT));
}

#[test]
fn horizontally_touching_boxes_do_not_collide() {
    // centres exactly (50 + 100) / 2 = 75 px apart: strict test
    assert!(!collide(0, 0, COPTER_WIDTH, COPTER_HEIGHT, 75_000_000, 0, OBSTACLE_WIDTH,
        OBSTACLE_HEIGHT));
}

#[test]
fn vertically_touching_boxes_collide() {
    // spans touch edge to edge at (50 + 250) / 2 = 150 px: inclusive test
    assert!(collide(0, 0, COPTER_WIDTH, COPTER_HEIGHT, 0, 150_000_000, OBSTACLE_WIDTH,
        OBSTACLE_HEIGHT));
    assert!(!collide(0, 0, COPTER_WIDTH, COPTER_HEIGHT, 0, 150_000_001, OBSTACLE_WIDTH,
        OBSTACLE_HEIGHT));
}

#[test]
fn verdict_invariant_under_horizontal_shift() {
    let shift = 123_456_789;
    for (ox, oy) in [(74_000_000, 0), (75_000_000, 0), (0, 150_000_000), (-60_000_000, -149_000_000)] {
        let plain = collide(0, 0, COPTER_WIDTH, COPTER_HEIGHT, ox, oy, OBSTACLE_WIDTH,
            OBSTACLE_HEIGHT);
        let shifted = collide(shift, 0, COPTER_WIDTH, COPTER_HEIGHT, ox + shift, oy,
            OBSTACLE_WIDTH, OBSTACLE_HEIGHT);
        assert_eq!(plain, shifted);
    }
}

#[test]
fn overlapping_obstacle_raises_game_over() {
    // copter at rest at y = 0, one obstacle right on top of it
    let mut state = GameState::new();
    let copter = Copter { y: 0, velocity: 0 };
    let obstacles = vec![Obstacle { x: COPTER_SPAWN_X, y: 0 }];
    let tiles: Vec<BorderTile> = Vec::new();
    collision_detection(&mut state, &copter, &obstacles, &tiles);
    assert!(state.game_over);
}

#[test]
fn distant_obstacle_leaves_game_running() {
    let mut state = GameState::new();
    let copter = Copter { y: 0, velocity: 0 };
    let obstacles = vec![Obstacle { x: 300_000_000, y: 0 }];
    let tiles: Vec<BorderTile> = Vec::new();
    collision_detection(&mut state, &copter, &obstacles, &tiles);
    assert!(!state.game_over);
}

#[test]
fn top_tile_breach_at_threshold() {
    // top tile of 75 px in the copter's span: breach from
    // 360 - 75 - 25 = 260 px upward, inclusive
    let tile = BorderTile { x: COPTER_SPAWN_X, y: 322_500_000, height: 75_000_000 };
    let mut state = GameState::new();
    let copter = Copter { y: 260_000_000, velocity: 0 };
    collision_detection(&mut state, &copter, &Vec::new(), &vec![tile]);
    assert!(state.game_over);

    let mut state = GameState::new();
    let copter = Copter { y: 259_999_999, velocity: 0 };
    collision_detection(&mut state, &copter, &Vec::new(), &vec![tile]);
    assert!(!state.game_over);
}

#[test]
fn bottom_tile_breach_at_threshold() {
    // bottom tile of 80 px: breach from -360 + 80 + 25 = -255 px downward
    let tile = BorderTile { x: COPTER_SPAWN_X, y: -320_000_000, height: 80_000_000 };
    let mut state = GameState::new();
    let copter = Copter { y: -255_000_000, velocity: 0 };
    collision_detection(&mut state, &copter, &Vec::new(), &vec![tile]);
    assert!(state.game_over);

    let mut state = GameState::new();
    let copter = Copter { y: -254_999_999, velocity: 0 };
    collision_detection(&mut state, &copter, &Vec::new(), &vec![tile]);
    assert!(!state.game_over);
}

#[test]
fn tile_outside_copter_span_is_ignored() {
    // same breach height, but the tile's centre is far from the copter
    let tile = BorderTile { x: 0, y: 322_500_000, height: 75_000_000 };
    let mut state = GameState::new();
    let copter = Copter { y: 300_000_000, velocity: 0 };
    collision_detection(&mut state, &copter, &Vec::new(), &vec![tile]);
    assert!(!state.game_over);
}

#[test]
fn tile_overlapping_off_centre_counts() {
    // the tile's centre is outside the copter's own 50 px span, but the
    // 64 px wide tile still overlaps the copter horizontally
    let tile = BorderTile {
        x: COPTER_SPAWN_X + 30_000_000,
        y: 297_500_000,
        height: 125_000_000,
    };
    let mut state = GameState::new();
    let copter = Copter { y: 260_000_000, velocity: 0 };
    collision_detection(&mut state, &copter, &Vec::new(), &vec![tile]);
    assert!(state.game_over);
}

#[test]
fn tile_at_span_edges_counts() {
    // horizontal overlap needs centre distance under (50 + 64) / 2 = 57 px
    let mut state = GameState::new();
    let copter = Copter { y: 300_000_000, velocity: 0 };
    let left = BorderTile { x: COPTER_SPAWN_X - 56_999_999, y: 322_500_000, height: 75_000_000 };
    collision_detection(&mut state, &copter, &Vec::new(), &vec![left]);
    assert!(state.game_over);

    let mut state = GameState::new();
    let right = BorderTile { x: COPTER_SPAWN_X + 56_999_999, y: 322_500_000, height: 75_000_000 };
    collision_detection(&mut state, &copter, &Vec::new(), &vec![right]);
    assert!(state.game_over);

    // merely touching side by side, 57 px apart exactly: strict, no hit
    let mut state = GameState::new();
    let touching = BorderTile { x: COPTER_SPAWN_X + 57_000_000, y: 322_500_000, height: 75_000_000 };
    collision_detection(&mut state, &copter, &Vec::new(), &vec![touching]);
    assert!(!state.game_over);
}

#[test]
fn finished_game_is_not_reexamined() {
    let mut state = GameState::new();
    state.game_over = true;
    state.score = 42;
    let copter = Copter { y: 0, velocity: 0 };
    let obstacles = vec![Obstacle { x: COPTER_SPAWN_X, y: 0 }];
    collision_detection(&mut state, &copter, &obstacles, &Vec::new());
    assert!(state.game_over);
    assert_eq!(state.score, 42);
}
