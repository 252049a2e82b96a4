//! Axis-aligned collision detection between the copter and the world.

use vstd::prelude::*;
use vstd::math::abs;

use crate::border::BorderTile;
use crate::constants::{
    BORDERTILE_HALF_WIDTH, COPTER_HALF_HEIGHT, COPTER_HALF_WIDTH, COPTER_HEIGHT, COPTER_SPAWN_X,
    COPTER_WIDTH, MAX_COORD, MAX_SIZE, OBSTACLE_HEIGHT, OBSTACLE_WIDTH, WINDOW_HALF_HEIGHT,
};
use crate::copter::Copter;
use crate::obstacle::Obstacle;
use crate::state::GameState;

verus! {

/// Axis-aligned overlap of the copter's and an obstacle's boxes, stated
/// over doubled distances so that no halving loses a subpixel: the
/// horizontal test is strict (boxes merely touching side by side do not
/// collide), the vertical one inclusive (spans touching edge to edge
/// do).
pub open spec fn spec_collide(
    copter_x: int,
    copter_y: int,
    copter_width: int,
    copter_height: int,
    obstacle_x: int,
    obstacle_y: int,
    obstacle_width: int,
    obstacle_height: int,
) -> bool {
    &&& 2 * abs(obstacle_x - copter_x) < copter_width + obstacle_width
    &&& 2 * obstacle_y - obstacle_height <= 2 * copter_y + copter_height
    &&& 2 * copter_y - copter_height <= 2 * obstacle_y + obstacle_height
}

/// Test two axis-aligned boxes, given by centre and size, for overlap.
pub fn collide(
    copter_x: i64,
    copter_y: i64,
    copter_width: i64,
    copter_height: i64,
    obstacle_x: i64,
    obstacle_y: i64,
    obstacle_width: i64,
    obstacle_height: i64,
) -> (hit: bool)
    requires
        -2 * MAX_COORD <= copter_x <= 2 * MAX_COORD,
        -2 * MAX_COORD <= copter_y <= 2 * MAX_COORD,
        -2 * MAX_COORD <= obstacle_x <= 2 * MAX_COORD,
        -2 * MAX_COORD <= obstacle_y <= 2 * MAX_COORD,
        0 <= copter_width <= MAX_SIZE,
        0 <= copter_height <= MAX_SIZE,
        0 <= obstacle_width <= MAX_SIZE,
        0 <= obstacle_height <= MAX_SIZE,
    ensures
        hit == spec_collide(
            copter_x as int,
            copter_y as int,
            copter_width as int,
            copter_height as int,
            obstacle_x as int,
            obstacle_y as int,
            obstacle_width as int,
            obstacle_height as int,
        ),
{
    let dx: i64 = if obstacle_x >= copter_x {
        obstacle_x - copter_x
    } else {
        copter_x - obstacle_x
    };
    2 * dx < copter_width + obstacle_width && 2 * obstacle_y - obstacle_height <= 2 * copter_y
        + copter_height && 2 * copter_y - copter_height <= 2 * obstacle_y + obstacle_height
}

/// Law: the collision verdict is invariant under horizontal translation
/// — shifting the copter and the obstacle by the same distance changes
/// nothing.
pub proof fn lemma_collide_translation(
    copter_x: int,
    copter_y: int,
    copter_width: int,
    copter_height: int,
    obstacle_x: int,
    obstacle_y: int,
    obstacle_width: int,
    obstacle_height: int,
    shift: int,
)
    ensures
        spec_collide(
            copter_x + shift,
            copter_y,
            copter_width,
            copter_height,
            obstacle_x + shift,
            obstacle_y,
            obstacle_width,
            obstacle_height,
        ) == spec_collide(
            copter_x,
            copter_y,
            copter_width,
            copter_height,
            obstacle_x,
            obstacle_y,
            obstacle_width,
            obstacle_height,
        ),
{
}

/// Whether the copter, hanging at its fixed horizontal station, overlaps
/// the given obstacle.
pub open spec fn spec_obstacle_hit(copter: Copter, obstacle: Obstacle) -> bool {
    spec_collide(
        COPTER_SPAWN_X as int,
        copter.y as int,
        COPTER_WIDTH as int,
        COPTER_HEIGHT as int,
        obstacle.x as int,
        obstacle.y as int,
        OBSTACLE_WIDTH as int,
        OBSTACLE_HEIGHT as int,
    )
}

/// Whether the copter breaches the boundary wall at the given tile. Only
/// a tile that horizontally overlaps the copter's span counts: centre
/// distance strictly under half the two widths, as in the obstacle test.
/// The tile's side is inferred from the sign of its `y`. Against a top
/// tile the copter collides as soon as its top edge is at or above the
/// tile's lower edge; against a bottom tile, mirrored.
pub open spec fn spec_tile_hit(copter: Copter, tile: BorderTile) -> bool {
    &&& abs(tile.x - COPTER_SPAWN_X) < COPTER_HALF_WIDTH + BORDERTILE_HALF_WIDTH
    &&& if tile.y >= 0 {
        copter.y >= WINDOW_HALF_HEIGHT - tile.height - COPTER_HALF_HEIGHT
    } else {
        copter.y <= -WINDOW_HALF_HEIGHT + tile.height + COPTER_HALF_HEIGHT
    }
}

/// Whether the copter currently overlaps anything at all.
pub open spec fn spec_any_hit(
    copter: Copter,
    obstacles: Seq<Obstacle>,
    bordertiles: Seq<BorderTile>,
) -> bool {
    ||| exists|i: int| 0 <= i < obstacles.len() && spec_obstacle_hit(copter, #[trigger] obstacles[i])
    ||| exists|i: int| 0 <= i < bordertiles.len() && spec_tile_hit(
        copter,
        #[trigger] bordertiles[i],
    )
}

/// Run the per-frame collision check: the game-over flag is raised
/// exactly when the copter overlaps an obstacle or breaches the border
/// wall. Evaluation stops at the first hit — the outcome is binary, so
/// the order of candidates is irrelevant. While the game is already over
/// nothing is evaluated.
pub fn collision_detection(
    game_state: &mut GameState,
    copter: &Copter,
    obstacles: &Vec<Obstacle>,
    bordertiles: &Vec<BorderTile>,
)
    requires
        -2 * MAX_COORD <= copter.y <= 2 * MAX_COORD,
        forall|i: int| 0 <= i < obstacles@.len() ==> -2 * MAX_COORD <= (#[trigger] obstacles@[i]).x
            <= 2 * MAX_COORD && -2 * MAX_COORD <= obstacles@[i].y <= 2 * MAX_COORD,
        forall|i: int| 0 <= i < bordertiles@.len() ==> -2 * MAX_COORD <= (
        #[trigger] bordertiles@[i]).y <= 2 * MAX_COORD && 0 <= bordertiles@[i].height <= MAX_SIZE,
    ensures
        old(game_state).game_over ==> *final(game_state) == *old(game_state),
        !old(game_state).game_over ==> *final(game_state) == (GameState {
            game_over: spec_any_hit(*copter, obstacles@, bordertiles@),
            ..*old(game_state)
        }),
{
    if game_state.game_over {
        return;
    }
    let mut i: usize = 0;
    while i < obstacles.len()
        invariant
            i <= obstacles@.len(),
            forall|k: int| 0 <= k < obstacles@.len() ==> -2 * MAX_COORD <= (
            #[trigger] obstacles@[k]).x <= 2 * MAX_COORD && -2 * MAX_COORD <= obstacles@[k].y <= 2
                * MAX_COORD,
            -2 * MAX_COORD <= copter.y <= 2 * MAX_COORD,
            forall|k: int| 0 <= k < i ==> !spec_obstacle_hit(*copter, #[trigger] obstacles@[k]),
            !game_state.game_over,
            *game_state == *old(game_state),
        decreases obstacles@.len() - i,
    {
        let obstacle = obstacles[i];
        if collide(
            COPTER_SPAWN_X,
            copter.y,
            COPTER_WIDTH,
            COPTER_HEIGHT,
            obstacle.x,
            obstacle.y,
            OBSTACLE_WIDTH,
            OBSTACLE_HEIGHT,
        ) {
            game_state.game_over = true;
            return;
        }
        i = i + 1;
    }
    let mut j: usize = 0;
    while j < bordertiles.len()
        invariant
            j <= bordertiles@.len(),
            forall|k: int| 0 <= k < bordertiles@.len() ==> -2 * MAX_COORD <= (
            #[trigger] bordertiles@[k]).y <= 2 * MAX_COORD && 0 <= bordertiles@[k].height
                <= MAX_SIZE,
            -2 * MAX_COORD <= copter.y <= 2 * MAX_COORD,
            forall|k: int| 0 <= k < obstacles@.len() ==> !spec_obstacle_hit(
                *copter,
                #[trigger] obstacles@[k],
            ),
            forall|k: int| 0 <= k < j ==> !spec_tile_hit(*copter, #[trigger] bordertiles@[k]),
            !game_state.game_over,
            *game_state == *old(game_state),
        decreases bordertiles@.len() - j,
    {
        let tile = bordertiles[j];
        let overlaps_span = COPTER_SPAWN_X - COPTER_HALF_WIDTH - BORDERTILE_HALF_WIDTH < tile.x
            && tile.x < COPTER_SPAWN_X + COPTER_HALF_WIDTH + BORDERTILE_HALF_WIDTH;
        let breached = if tile.y >= 0 {
            copter.y >= WINDOW_HALF_HEIGHT - tile.height - COPTER_HALF_HEIGHT
        } else {
            copter.y <= -WINDOW_HALF_HEIGHT + tile.height + COPTER_HALF_HEIGHT
        };
        if overlaps_span && breached {
            game_state.game_over = true;
            return;
        }
        j = j + 1;
    }
}

} // verus!
