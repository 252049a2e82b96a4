//! Gap obstacles: random spawning inside the current border gap,
//! scrolling and culling.

use vstd::prelude::*;

use crate::border::BorderTileCurrentHeight;
use crate::constants::{
    MAX_COORD, MAX_SIZE, MAX_TICK_MS, OBSTACLE_CULL_X, OBSTACLE_HALF_HEIGHT, OBSTACLE_SPAWN_X,
    OBSTACLE_SPEED, WINDOW_HALF_HEIGHT,
};
use crate::state::GameState;

verus! {

/// A single gap obstacle. Its size is fixed by constants; only the
/// centre position varies.
#[derive(Clone, Copy, Debug, PartialEq, Eq, Structural)]
pub struct Obstacle {
    /// Horizontal position of the centre, in subpixels.
    pub x: i64,
    /// Vertical position of the centre, in subpixels.
    pub y: i64,
}

/// Lowest centre height at which a fresh obstacle clears the bottom
/// border tiles entirely.
pub open spec fn spec_band_low(heights: BorderTileCurrentHeight) -> int {
    -WINDOW_HALF_HEIGHT + heights.bottom_border + OBSTACLE_HALF_HEIGHT
}

/// Least upper bound on the centre heights at which a fresh obstacle
/// clears the top border tiles entirely (the band is half-open at the
/// top).
pub open spec fn spec_band_high(heights: BorderTileCurrentHeight) -> int {
    WINDOW_HALF_HEIGHT - heights.top_border - OBSTACLE_HALF_HEIGHT
}

/// Relies on rand: `Rng::random_range` over `low..high` on the
/// thread-local generator returns a value of that half-open range. It
/// panics only on an empty range, which the precondition rules out.
/// Nothing more is assumed of the draw: callers hold for every outcome.
#[verifier::external_body]
fn random_in_range(low: i64, high: i64) -> (drawn: i64)
    requires
        low < high,
    ensures
        low <= drawn < high,
{
    let mut rng = rand::rng();
    rand::Rng::random_range(&mut rng, low..high)
}

/// Advance the obstacle spawner by one frame. When its repeating timer
/// completes a round, one obstacle appears just past the right edge, at
/// a vertical position drawn uniformly from the band that the current
/// border heights leave open. An empty or inverted band is detected
/// before any drawing happens and skips the spawn. While the game is
/// over nothing happens, not even timer progress.
pub fn spawn_obstacles(
    game_state: &mut GameState,
    heights: &BorderTileCurrentHeight,
    obstacles: &mut Vec<Obstacle>,
    dt: i64,
)
    requires
        old(game_state).obstacle_timer.wf(),
        0 <= dt <= MAX_TICK_MS,
        -MAX_SIZE <= heights.top_border <= MAX_SIZE,
        -MAX_SIZE <= heights.bottom_border <= MAX_SIZE,
    ensures
        old(game_state).game_over ==> *final(game_state) == *old(game_state)
            && final(obstacles)@ == old(obstacles)@,
        !old(game_state).game_over ==> *final(game_state) == (GameState {
            obstacle_timer: old(game_state).obstacle_timer.spec_after(dt as int),
            ..*old(game_state)
        }),
        !old(game_state).game_over && !(old(game_state).obstacle_timer.spec_fires(dt as int)
            && spec_band_low(*heights) < spec_band_high(*heights))
            ==> final(obstacles)@ == old(obstacles)@,
        !old(game_state).game_over && old(game_state).obstacle_timer.spec_fires(dt as int)
            && spec_band_low(*heights) < spec_band_high(*heights) ==> exists|y: i64|
            spec_band_low(*heights) <= y < spec_band_high(*heights)
                && final(obstacles)@ == old(obstacles)@.push(Obstacle { x: OBSTACLE_SPAWN_X, y }),
{
    if game_state.game_over {
        return;
    }
    let fired = game_state.obstacle_timer.tick(dt);
    if fired {
        let band_low: i64 = -WINDOW_HALF_HEIGHT + heights.bottom_border + OBSTACLE_HALF_HEIGHT;
        let band_high: i64 = WINDOW_HALF_HEIGHT - heights.top_border - OBSTACLE_HALF_HEIGHT;
        if band_low < band_high {
            let y: i64 = random_in_range(band_low, band_high);
            obstacles.push(Obstacle { x: OBSTACLE_SPAWN_X, y });
        }
    }
}

/// An obstacle scrolled left by one frame.
pub open spec fn spec_moved_obstacle(obstacle: Obstacle, dt: int) -> Obstacle {
    Obstacle { x: (obstacle.x - OBSTACLE_SPEED * dt) as i64, y: obstacle.y }
}

/// The obstacles after one frame of scrolling: each moves left at the
/// obstacle speed, and any that has left the screen past the culling
/// threshold is destroyed.
pub open spec fn spec_move_obstacles(obstacles: Seq<Obstacle>, dt: int) -> Seq<Obstacle>
    decreases obstacles.len(),
{
    if obstacles.len() == 0 {
        Seq::empty()
    } else {
        let rest = spec_move_obstacles(obstacles.drop_last(), dt);
        let moved = spec_moved_obstacle(obstacles.last(), dt);
        if moved.x >= OBSTACLE_CULL_X {
            rest.push(moved)
        } else {
            rest
        }
    }
}

/// Every surviving obstacle is a moved input obstacle and sits at or
/// right of the culling threshold.
pub proof fn lemma_move_obstacles_from(obstacles: Seq<Obstacle>, dt: int)
    ensures
        forall|j: int| #![trigger spec_move_obstacles(obstacles, dt)[j]] 0 <= j
            < spec_move_obstacles(obstacles, dt).len() ==> spec_move_obstacles(obstacles, dt)[j].x
            >= OBSTACLE_CULL_X && exists|i: int|
            0 <= i < obstacles.len() && spec_move_obstacles(obstacles, dt)[j]
                == #[trigger] spec_moved_obstacle(obstacles[i], dt),
    decreases obstacles.len(),
{
    if obstacles.len() > 0 {
        let rest = spec_move_obstacles(obstacles.drop_last(), dt);
        let moved = spec_moved_obstacle(obstacles.last(), dt);
        let result = spec_move_obstacles(obstacles, dt);
        lemma_move_obstacles_from(obstacles.drop_last(), dt);
        assert(forall|i: int| 0 <= i < obstacles.len() - 1 ==> #[trigger] obstacles.drop_last()[i]
            == obstacles[i]);
        assert forall|j: int| 0 <= j < result.len() implies result[j].x >= OBSTACLE_CULL_X
            && exists|i: int| 0 <= i < obstacles.len() && result[j] == #[trigger]
        spec_moved_obstacle(obstacles[i], dt) by {
            if moved.x >= OBSTACLE_CULL_X && j == result.len() - 1 {
                assert(result[j] == moved);
                assert(obstacles.last() == obstacles[obstacles.len() - 1]);
                assert(result[j] == spec_moved_obstacle(obstacles[obstacles.len() - 1], dt));
            } else {
                assert(result[j] == rest[j]);
                let i = choose|i: int|
                    0 <= i < obstacles.drop_last().len() && rest[j] == #[trigger]
                    spec_moved_obstacle(obstacles.drop_last()[i], dt);
                assert(result[j] == spec_moved_obstacle(obstacles[i], dt));
            }
        }
    }
}

/// Scroll every obstacle left for one frame and destroy the ones that
/// have fully left the screen. A no-op while the game is over.
pub fn obstacle_movement(obstacles: &mut Vec<Obstacle>, dt: i64, game_over: bool)
    requires
        0 <= dt <= MAX_TICK_MS,
        forall|i: int| 0 <= i < old(obstacles)@.len() ==> -MAX_COORD <= (#[trigger] old(
            obstacles,
        )@[i]).x <= MAX_COORD,
    ensures
        game_over ==> final(obstacles)@ == old(obstacles)@,
        !game_over ==> final(obstacles)@ == spec_move_obstacles(old(obstacles)@, dt as int),
{
    if game_over {
        return;
    }
    proof {
        assert(0 <= OBSTACLE_SPEED * dt <= 600_000_000_000) by (nonlinear_arith)
            requires
                0 <= dt <= 1_000_000,
        ;
    }
    let mut kept: Vec<Obstacle> = Vec::new();
    let mut i: usize = 0;
    while i < obstacles.len()
        invariant
            i <= obstacles@.len(),
            forall|k: int| 0 <= k < obstacles@.len() ==> -MAX_COORD <= (#[trigger] obstacles@[k]).x
                <= MAX_COORD,
            0 <= OBSTACLE_SPEED * dt <= 600_000_000_000,
            kept@ == spec_move_obstacles(obstacles@.subrange(0, i as int), dt as int),
        decreases obstacles@.len() - i,
    {
        let obstacle = obstacles[i];
        let moved = Obstacle { x: obstacle.x - OBSTACLE_SPEED * dt, y: obstacle.y };
        if moved.x >= OBSTACLE_CULL_X {
            kept.push(moved);
        }
        proof {
            assert(obstacles@.subrange(0, i + 1).drop_last() =~= obstacles@.subrange(0, i as int));
            assert(obstacles@.subrange(0, i + 1).last() == obstacles@[i as int]);
        }
        i = i + 1;
    }
    proof {
        assert(obstacles@.subrange(0, obstacles@.len() as int) =~= obstacles@);
    }
    *obstacles = kept;
}

} // verus!
