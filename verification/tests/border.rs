use copter::border::{
    bordertile_movement, fluctuate, spawn_bordertiles, spawn_init_border, BorderTile,
    BorderTileCurrentHeight, BorderTileFluctuator, FluctuatingDirection,
};
use copter::constants::{
    BORDERTILE_SPAWN_X, DEFAULT_BORDERTILE_HEIGHT, MAX_BORDERTILE_HEIGHT, MIN_BORDERTILE_HEIGHT,
};
use copter::state::GameState;

fn default_heights() -> BorderTileCurrentHeight {
    BorderTileCurrentHeight {
        top_border: DEFAULT_BORDERTILE_HEIGHT,
        bottom_border: DEFAULT_BORDERTILE_HEIGHT,
    }
}

#[test]
fn first_fluctuation_tick_from_default() {
    let mut heights = default_heights();
    let mut fluctuator = BorderTileFluctuator { direction: FluctuatingDirection::Up };
    fluctuate(&mut heights, &mut fluctuator);
    assert_eq!(heights.top_border, 70_000_000);
    assert_eq!(heights.bottom_border, 80_000_000);
    assert_eq!(fluctuator.direction, FluctuatingDirection::Up);
}

#[test]
fn direction_flips_once_and_only_when_both_bounds_crossed() {
    // From the default heights the swing turns only when the top border
    // is at or under MIN and the bottom at or over MAX at once, which
    // the conserved sum delays until the tenth tick.
    let mut heights = default_heights();
    let mut fluctuator = BorderTileFluctuator { direction: FluctuatingDirection::Up };
    let mut flips = 0;
    for tick in 1..=10 {
        let before = fluctuator.direction;
        fluctuate(&mut heights, &mut fluctuator);
        if fluctuator.direction != before {
            flips += 1;
            assert_eq!(tick, 10);
        }
        if tick < 10 {
            // top may already be under MIN here while bottom is still
            // under MAX: no flip on one condition alone
            assert_eq!(fluctuator.direction, FluctuatingDirection::Up);
        }
    }
    assert_eq!(flips, 1);
    assert_eq!(heights.top_border, 25_000_000);
    assert_eq!(heights.bottom_border, 125_000_000);
    assert_eq!(fluctuator.direction, FluctuatingDirection::Down);
    // and it does not flip back on the very next tick
    fluctuate(&mut heights, &mut fluctuator);
    assert_eq!(fluctuator.direction, FluctuatingDirection::Down);
    assert_eq!(heights.top_border, 30_000_000);
}

#[test]
fn balanced_start_stays_within_min_max() {
    // When the heights sum to MIN + MAX, both stay within [MIN, MAX]
    // for any number of ticks.
    let mut heights = BorderTileCurrentHeight {
        top_border: 100_000_000,
        bottom_border: 75_000_000,
    };
    let mut fluctuator = BorderTileFluctuator { direction: FluctuatingDirection::Up };
    for _ in 0..200 {
        fluctuate(&mut heights, &mut fluctuator);
        assert!(MIN_BORDERTILE_HEIGHT <= heights.top_border);
        assert!(heights.top_border <= MAX_BORDERTILE_HEIGHT);
        assert!(MIN_BORDERTILE_HEIGHT <= heights.bottom_border);
        assert!(heights.bottom_border <= MAX_BORDERTILE_HEIGHT);
    }
}

#[test]
fn init_border_tiles_cover_window() {
    let tiles = spawn_init_border();
    assert_eq!(tiles.len(), 32);
    // first column sits half a tile from the left edge
    assert_eq!(tiles[0].x, -480_000_000);
    assert_eq!(tiles[0].y, 322_500_000);
    assert_eq!(tiles[0].height, DEFAULT_BORDERTILE_HEIGHT);
    assert_eq!(tiles[1].x, -480_000_000);
    assert_eq!(tiles[1].y, -322_500_000);
    assert_eq!(tiles[1].height, DEFAULT_BORDERTILE_HEIGHT);
    // columns advance one tile width at a time
    assert_eq!(tiles[2].x, -416_000_000);
    assert_eq!(tiles[30].x, 480_000_000);
    assert_eq!(tiles[31].x, 480_000_000);
    assert_eq!(tiles[31].y, -322_500_000);
}

#[test]
fn border_spawner_fires_and_appends_two_tiles() {
    let mut state = GameState::new();
    let mut fluctuator = BorderTileFluctuator { direction: FluctuatingDirection::Up };
    let mut heights = default_heights();
    let mut tiles: Vec<BorderTile> = Vec::new();
    spawn_bordertiles(&mut state, &mut fluctuator, &mut heights, &mut tiles, 300);
    assert_eq!(heights.top_border, 70_000_000);
    assert_eq!(heights.bottom_border, 80_000_000);
    assert_eq!(tiles.len(), 2);
    assert_eq!(tiles[0].x, BORDERTILE_SPAWN_X);
    assert_eq!(tiles[0].y, 325_000_000);
    assert_eq!(tiles[0].height, 70_000_000);
    assert_eq!(tiles[1].x, BORDERTILE_SPAWN_X);
    assert_eq!(tiles[1].y, -320_000_000);
    assert_eq!(tiles[1].height, 80_000_000);
    assert_eq!(state.bordertile_timer.elapsed, 0);
}

#[test]
fn border_spawner_idle_before_period() {
    let mut state = GameState::new();
    let mut fluctuator = BorderTileFluctuator { direction: FluctuatingDirection::Up };
    let mut heights = default_heights();
    let mut tiles: Vec<BorderTile> = Vec::new();
    spawn_bordertiles(&mut state, &mut fluctuator, &mut heights, &mut tiles, 299);
    assert_eq!(tiles.len(), 0);
    assert_eq!(heights, default_heights());
    assert_eq!(state.bordertile_timer.elapsed, 299);
}

#[test]
fn border_spawner_halts_when_game_over() {
    let mut state = GameState::new();
    state.game_over = true;
    let mut fluctuator = BorderTileFluctuator { direction: FluctuatingDirection::Up };
    let mut heights = default_heights();
    let mut tiles: Vec<BorderTile> = Vec::new();
    spawn_bordertiles(&mut state, &mut fluctuator, &mut heights, &mut tiles, 300);
    assert_eq!(tiles.len(), 0);
    assert_eq!(heights, default_heights());
    // not even the timer advances
    assert_eq!(state.bordertile_timer.elapsed, 0);
}

#[test]
fn tile_movement_scrolls_and_culls() {
    let mut tiles = vec![
        BorderTile { x: 0, y: 322_500_000, height: 75_000_000 },
        BorderTile { x: -500_000_000, y: -322_500_000, height: 75_000_000 },
    ];
    bordertile_movement(&mut tiles, 100, false);
    // both move 60 px left; the second falls past -544 px and is culled
    assert_eq!(tiles.len(), 1);
    assert_eq!(tiles[0].x, -60_000_000);
    assert_eq!(tiles[0].y, 322_500_000);
}

#[test]
fn tile_movement_frozen_when_game_over() {
    let mut tiles = vec![BorderTile { x: 0, y: 322_500_000, height: 75_000_000 }];
    bordertile_movement(&mut tiles, 100, true);
    assert_eq!(tiles.len(), 1);
    assert_eq!(tiles[0].x, 0);
}
