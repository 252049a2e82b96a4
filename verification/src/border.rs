//! The play-field borders: height fluctuation, tile spawning, scrolling
//! and culling.

use vstd::prelude::*;

use crate::constants::{
    BORDERTILE_CULL_X, BORDERTILE_HALF_WIDTH, BORDERTILE_SPAWN_X, BORDERTILE_SPEED,
    BORDERTILE_WIDTH, DEFAULT_BORDERTILE_HEIGHT, FLUCTUATION_PER_FRAME, INIT_BORDERTILE_COUNT,
    MAX_BORDERTILE_HEIGHT, MAX_COORD, MAX_TICK_MS, MIN_BORDERTILE_HEIGHT, WINDOW_HALF_WIDTH,
    WINDOW_HEIGHT,
};
use crate::state::GameState;

verus! {

/// Which way the border heights are currently moving: `Up` shrinks the
/// top border and grows the bottom one, `Down` the reverse.
#[derive(Clone, Copy, Debug, PartialEq, Eq, Structural)]
pub enum FluctuatingDirection {
    Up,
    Down,
}

/// The oscillation state of the border fluctuator.
#[derive(Clone, Copy, Debug, PartialEq, Eq, Structural)]
pub struct BorderTileFluctuator {
    pub direction: FluctuatingDirection,
}

impl BorderTileFluctuator {
    pub open spec fn spec_initial() -> BorderTileFluctuator {
        BorderTileFluctuator { direction: FluctuatingDirection::Up }
    }

    pub fn new() -> (fluctuator: BorderTileFluctuator)
        ensures
            fluctuator == BorderTileFluctuator::spec_initial(),
    {
        BorderTileFluctuator { direction: FluctuatingDirection::Up }
    }
}

impl Default for BorderTileFluctuator {
    fn default() -> (fluctuator: BorderTileFluctuator)
        ensures
            fluctuator == BorderTileFluctuator::spec_initial(),
    {
        BorderTileFluctuator::new()
    }
}

/// The heights, in subpixels, at which the next top and bottom border
/// tiles will be spawned. Written only by the fluctuator; read by the
/// tile spawner and by the obstacle spawner (to bound gap placement).
#[derive(Clone, Copy, Debug, PartialEq, Eq, Structural)]
pub struct BorderTileCurrentHeight {
    pub top_border: i64,
    pub bottom_border: i64,
}

impl BorderTileCurrentHeight {
    pub open spec fn spec_initial() -> BorderTileCurrentHeight {
        BorderTileCurrentHeight {
            top_border: DEFAULT_BORDERTILE_HEIGHT,
            bottom_border: DEFAULT_BORDERTILE_HEIGHT,
        }
    }

    pub fn new() -> (heights: BorderTileCurrentHeight)
        ensures
            heights == BorderTileCurrentHeight::spec_initial(),
    {
        BorderTileCurrentHeight {
            top_border: DEFAULT_BORDERTILE_HEIGHT,
            bottom_border: DEFAULT_BORDERTILE_HEIGHT,
        }
    }
}

impl Default for BorderTileCurrentHeight {
    fn default() -> (heights: BorderTileCurrentHeight)
        ensures
            heights == BorderTileCurrentHeight::spec_initial(),
    {
        BorderTileCurrentHeight::new()
    }
}

/// One segment of the top or bottom boundary wall. Its side is inferred
/// from the sign of `y`: top tiles sit above the centre line, bottom
/// tiles below.
#[derive(Clone, Copy, Debug, PartialEq, Eq, Structural)]
pub struct BorderTile {
    /// Horizontal position of the centre, in subpixels.
    pub x: i64,
    /// Vertical position of the centre, in subpixels.
    pub y: i64,
    /// Height of the segment, in subpixels; the width is fixed.
    pub height: i64,
}

/// One fluctuation tick, as a pure transition: the stepping of both
/// heights by the fixed delta, and the direction after it. The direction
/// flips only when BOTH borders have crossed their respective extreme —
/// a conjunction, deliberately not an either-or, so the turn happens at
/// the far end of the swing and not as soon as one side touches a bound.
pub open spec fn spec_fluctuate(
    heights: BorderTileCurrentHeight,
    direction: FluctuatingDirection,
) -> (BorderTileCurrentHeight, FluctuatingDirection) {
    match direction {
        FluctuatingDirection::Up => {
            let stepped = BorderTileCurrentHeight {
                top_border: (heights.top_border - FLUCTUATION_PER_FRAME) as i64,
                bottom_border: (heights.bottom_border + FLUCTUATION_PER_FRAME) as i64,
            };
            let next = if stepped.top_border <= MIN_BORDERTILE_HEIGHT
                && stepped.bottom_border >= MAX_BORDERTILE_HEIGHT {
                FluctuatingDirection::Down
            } else {
                FluctuatingDirection::Up
            };
            (stepped, next)
        },
        FluctuatingDirection::Down => {
            let stepped = BorderTileCurrentHeight {
                top_border: (heights.top_border + FLUCTUATION_PER_FRAME) as i64,
                bottom_border: (heights.bottom_border - FLUCTUATION_PER_FRAME) as i64,
            };
            let next = if stepped.top_border >= MAX_BORDERTILE_HEIGHT
                && stepped.bottom_border <= MIN_BORDERTILE_HEIGHT {
                FluctuatingDirection::Up
            } else {
                FluctuatingDirection::Down
            };
            (stepped, next)
        },
    }
}

/// The lowest value the top border reaches when the heights sum to
/// `sum`: stepping symmetrically conserves the sum, so the `Up` swing
/// turns once the top border is at or under both `MIN_BORDERTILE_HEIGHT`
/// and `sum - MAX_BORDERTILE_HEIGHT`.
pub open spec fn fluct_low(sum: int) -> int {
    if sum - MAX_BORDERTILE_HEIGHT < MIN_BORDERTILE_HEIGHT {
        sum - MAX_BORDERTILE_HEIGHT
    } else {
        MIN_BORDERTILE_HEIGHT as int
    }
}

/// The highest value the top border reaches when the heights sum to
/// `sum`; the mirror of `fluct_low`.
pub open spec fn fluct_high(sum: int) -> int {
    if sum - MIN_BORDERTILE_HEIGHT > MAX_BORDERTILE_HEIGHT {
        sum - MIN_BORDERTILE_HEIGHT
    } else {
        MAX_BORDERTILE_HEIGHT as int
    }
}

/// Invariant of the fluctuation: the heights sum to `sum` forever, the
/// top border swings between `fluct_low(sum)` and `fluct_high(sum)` in
/// whole steps, and the direction always has room for its next step.
pub open spec fn fluct_inv(
    heights: BorderTileCurrentHeight,
    direction: FluctuatingDirection,
    sum: int,
) -> bool {
    &&& heights.top_border + heights.bottom_border == sum
    &&& fluct_low(sum) <= heights.top_border <= fluct_high(sum)
    &&& (heights.top_border - fluct_low(sum)) % (FLUCTUATION_PER_FRAME as int) == 0
    &&& (fluct_high(sum) - fluct_low(sum)) % (FLUCTUATION_PER_FRAME as int) == 0
    &&& (direction == FluctuatingDirection::Up ==> heights.top_border > fluct_low(sum))
    &&& (direction == FluctuatingDirection::Down ==> heights.top_border < fluct_high(sum))
}

/// A positive multiple of the fluctuation step is at least one step.
proof fn lemma_positive_step_multiple(x: int)
    requires
        x > 0,
        x % (FLUCTUATION_PER_FRAME as int) == 0,
    ensures
        x >= FLUCTUATION_PER_FRAME,
{
    vstd::arithmetic::div_mod::lemma_fundamental_div_mod(x, FLUCTUATION_PER_FRAME as int);
    let q = x / (FLUCTUATION_PER_FRAME as int);
    assert(x >= FLUCTUATION_PER_FRAME) by (nonlinear_arith)
        requires
            x == 5_000_000 * q,
            x > 0,
    ;
}

/// Law: one fluctuation tick preserves the invariant — the heights keep
/// their sum and stay inside the swing range.
pub proof fn lemma_fluctuate_preserves_inv(
    heights: BorderTileCurrentHeight,
    direction: FluctuatingDirection,
    sum: int,
)
    requires
        fluct_inv(heights, direction, sum),
        -0x4000_0000_0000_0000 < sum < 0x4000_0000_0000_0000,
    ensures
        fluct_inv(
            spec_fluctuate(heights, direction).0,
            spec_fluctuate(heights, direction).1,
            sum,
        ),
{
    let step = FLUCTUATION_PER_FRAME as int;
    let low = fluct_low(sum);
    let high = fluct_high(sum);
    let top = heights.top_border as int;

    match direction {
        FluctuatingDirection::Up => {
            lemma_positive_step_multiple(top - low);
            assert(top - step - low == -step + (top - low));
            vstd::arithmetic::div_mod::lemma_mod_sub_multiples_vanish(top - low, step);
            assert((top - step - low) % step == 0);
        },
        FluctuatingDirection::Down => {
            assert((high - top) % step == 0) by {
                vstd::arithmetic::div_mod::lemma_sub_mod_noop(high - low, top - low, step);
                assert(high - top == (high - low) - (top - low));
            };
            lemma_positive_step_multiple(high - top);
            assert(top + step - low == step + (top - low));
            vstd::arithmetic::div_mod::lemma_mod_add_multiples_vanish(top - low, step);
            assert((top + step - low) % step == 0);
        },
    }
}

/// The heights and direction after `n` fluctuation ticks.
pub open spec fn spec_fluctuate_run(
    heights: BorderTileCurrentHeight,
    direction: FluctuatingDirection,
    n: nat,
) -> (BorderTileCurrentHeight, FluctuatingDirection)
    decreases n,
{
    if n == 0 {
        (heights, direction)
    } else {
        let prev = spec_fluctuate_run(heights, direction, (n - 1) as nat);
        spec_fluctuate(prev.0, prev.1)
    }
}

/// Law: from any configuration whose heights sum to
/// `MIN_BORDERTILE_HEIGHT + MAX_BORDERTILE_HEIGHT` and satisfy the
/// fluctuation invariant, both border heights remain within
/// `[MIN_BORDERTILE_HEIGHT, MAX_BORDERTILE_HEIGHT]` for an arbitrary
/// number of fluctuation ticks.
pub proof fn lemma_fluctuation_bounded(
    heights: BorderTileCurrentHeight,
    direction: FluctuatingDirection,
    n: nat,
)
    requires
        fluct_inv(heights, direction, (MIN_BORDERTILE_HEIGHT + MAX_BORDERTILE_HEIGHT) as int),
    ensures
        fluct_inv(
            spec_fluctuate_run(heights, direction, n).0,
            spec_fluctuate_run(heights, direction, n).1,
            (MIN_BORDERTILE_HEIGHT + MAX_BORDERTILE_HEIGHT) as int,
        ),
        MIN_BORDERTILE_HEIGHT <= spec_fluctuate_run(heights, direction, n).0.top_border
            <= MAX_BORDERTILE_HEIGHT,
        MIN_BORDERTILE_HEIGHT <= spec_fluctuate_run(heights, direction, n).0.bottom_border
            <= MAX_BORDERTILE_HEIGHT,
    decreases n,
{
    if n > 0 {
        lemma_fluctuation_bounded(heights, direction, (n - 1) as nat);
        let prev = spec_fluctuate_run(heights, direction, (n - 1) as nat);
        lemma_fluctuate_preserves_inv(
            prev.0,
            prev.1,
            (MIN_BORDERTILE_HEIGHT + MAX_BORDERTILE_HEIGHT) as int,
        );
    }
}

/// One fluctuation tick of the border heights. While the direction is
/// `Up` the top border shrinks by the fixed step and the bottom one
/// grows by it; `Down` is the mirror image. The direction flips exactly
/// when both borders have crossed their extremes at once.
pub fn fluctuate(heights: &mut BorderTileCurrentHeight, fluctuator: &mut BorderTileFluctuator)
    requires
        -0x2000_0000_0000_0000 <= old(heights).top_border <= 0x2000_0000_0000_0000,
        -0x2000_0000_0000_0000 <= old(heights).bottom_border <= 0x2000_0000_0000_0000,
    ensures
        *final(heights) == spec_fluctuate(*old(heights), old(fluctuator).direction).0,
        final(fluctuator).direction == spec_fluctuate(
            *old(heights),
            old(fluctuator).direction,
        ).1,
{
    match fluctuator.direction {
        FluctuatingDirection::Up => {
            heights.top_border = heights.top_border - FLUCTUATION_PER_FRAME;
            heights.bottom_border = heights.bottom_border + FLUCTUATION_PER_FRAME;
            if heights.top_border <= MIN_BORDERTILE_HEIGHT && heights.bottom_border
                >= MAX_BORDERTILE_HEIGHT {
                fluctuator.direction = FluctuatingDirection::Down;
            }
        },
        FluctuatingDirection::Down => {
            heights.top_border = heights.top_border + FLUCTUATION_PER_FRAME;
            heights.bottom_border = heights.bottom_border - FLUCTUATION_PER_FRAME;
            if heights.top_border >= MAX_BORDERTILE_HEIGHT && heights.bottom_border
                <= MIN_BORDERTILE_HEIGHT {
                fluctuator.direction = FluctuatingDirection::Up;
            }
        },
    }
}

/// A tile of height `height` whose top edge is flush with the top of the
/// window, centred at `x`.
pub open spec fn spec_top_tile(x: int, height: int) -> BorderTile {
    BorderTile {
        x: x as i64,
        y: ((WINDOW_HEIGHT - height) / 2) as i64,
        height: height as i64,
    }
}

/// A tile of height `height` whose bottom edge is flush with the bottom
/// of the window, centred at `x`.
pub open spec fn spec_bottom_tile(x: int, height: int) -> BorderTile {
    BorderTile {
        x: x as i64,
        y: (-((WINDOW_HEIGHT - height) / 2)) as i64,
        height: height as i64,
    }
}

/// Centre of the `index`-th initial tile, tiling edge-to-edge from the
/// left screen boundary.
pub open spec fn spec_init_tile_x(index: int) -> int {
    -WINDOW_HALF_WIDTH + BORDERTILE_HALF_WIDTH + index * BORDERTILE_WIDTH
}

/// The border tiles a session starts with: enough tiles at the default
/// height to cover the visible width on both edges, a top and a bottom
/// tile per column.
pub open spec fn spec_init_tiles() -> Seq<BorderTile> {
    Seq::new(
        (2 * INIT_BORDERTILE_COUNT) as nat,
        |j: int|
            if j % 2 == 0 {
                spec_top_tile(spec_init_tile_x(j / 2), DEFAULT_BORDERTILE_HEIGHT as int)
            } else {
                spec_bottom_tile(spec_init_tile_x(j / 2), DEFAULT_BORDERTILE_HEIGHT as int)
            },
    )
}

/// Emit the initial border: tiles at the default height, edge to edge
/// from the left screen boundary across the whole visible width, on both
/// the top and the bottom edge.
pub fn spawn_init_border() -> (tiles: Vec<BorderTile>)
    ensures
        tiles@ == spec_init_tiles(),
{
    let mut tiles: Vec<BorderTile> = Vec::new();
    let y: i64 = (WINDOW_HEIGHT - DEFAULT_BORDERTILE_HEIGHT) / 2;
    let mut i: usize = 0;
    while i < INIT_BORDERTILE_COUNT
        invariant
            i <= INIT_BORDERTILE_COUNT,
            y == (WINDOW_HEIGHT - DEFAULT_BORDERTILE_HEIGHT) / 2,
            tiles@.len() == 2 * i,
            forall|j: int| 0 <= j < tiles@.len() ==> tiles@[j] == spec_init_tiles()[j],
        decreases INIT_BORDERTILE_COUNT - i,
    {
        let x: i64 = -WINDOW_HALF_WIDTH + BORDERTILE_HALF_WIDTH + (i as i64) * BORDERTILE_WIDTH;
        tiles.push(BorderTile { x, y, height: DEFAULT_BORDERTILE_HEIGHT });
        tiles.push(BorderTile { x, y: -y, height: DEFAULT_BORDERTILE_HEIGHT });
        i = i + 1;
    }
    proof {
        assert(tiles@ =~= spec_init_tiles());
    }
    tiles
}

/// Advance the border spawner by one frame of its fixed-step clock.
/// When the repeating timer completes a round, the heights fluctuate
/// once and exactly one new top tile and one new bottom tile appear at
/// the right edge, sized to the just-updated heights. While the game is
/// over nothing happens, not even timer progress.
pub fn spawn_bordertiles(
    game_state: &mut GameState,
    fluctuator: &mut BorderTileFluctuator,
    heights: &mut BorderTileCurrentHeight,
    tiles: &mut Vec<BorderTile>,
    dt: i64,
)
    requires
        old(game_state).bordertile_timer.wf(),
        0 <= dt <= MAX_TICK_MS,
        FLUCTUATION_PER_FRAME <= old(heights).top_border <= WINDOW_HEIGHT
            - FLUCTUATION_PER_FRAME,
        FLUCTUATION_PER_FRAME <= old(heights).bottom_border <= WINDOW_HEIGHT
            - FLUCTUATION_PER_FRAME,
    ensures
        old(game_state).game_over ==> *final(game_state) == *old(game_state) && *final(heights)
            == *old(heights) && *final(fluctuator) == *old(fluctuator) && final(tiles)@ == old(
            tiles,
        )@,
        !old(game_state).game_over ==> *final(game_state) == (GameState {
            bordertile_timer: old(game_state).bordertile_timer.spec_after(dt as int),
            ..*old(game_state)
        }),
        !old(game_state).game_over && !old(game_state).bordertile_timer.spec_fires(dt as int)
            ==> *final(heights) == *old(heights) && *final(fluctuator) == *old(fluctuator)
            && final(tiles)@ == old(tiles)@,
        !old(game_state).game_over && old(game_state).bordertile_timer.spec_fires(dt as int)
            ==> *final(heights) == spec_fluctuate(*old(heights), old(fluctuator).direction).0
            && final(fluctuator).direction == spec_fluctuate(
            *old(heights),
            old(fluctuator).direction,
        ).1 && final(tiles)@ == old(tiles)@.push(
            spec_top_tile(BORDERTILE_SPAWN_X as int, final(heights).top_border as int),
        ).push(spec_bottom_tile(BORDERTILE_SPAWN_X as int, final(heights).bottom_border as int)),
{
    if game_state.game_over {
        return;
    }
    let fired = game_state.bordertile_timer.tick(dt);
    if fired {
        fluctuate(heights, fluctuator);
        let top_y: i64 = (WINDOW_HEIGHT - heights.top_border) / 2;
        tiles.push(
            BorderTile { x: BORDERTILE_SPAWN_X, y: top_y, height: heights.top_border },
        );
        let bottom_y: i64 = (WINDOW_HEIGHT - heights.bottom_border) / 2;
        tiles.push(
            BorderTile { x: BORDERTILE_SPAWN_X, y: -bottom_y, height: heights.bottom_border },
        );
    }
}

/// A tile scrolled left by one frame.
pub open spec fn spec_moved_tile(tile: BorderTile, dt: int) -> BorderTile {
    BorderTile { x: (tile.x - BORDERTILE_SPEED * dt) as i64, y: tile.y, height: tile.height }
}

/// The tiles after one frame of scrolling: each moves left at the tile
/// speed, and any that has left the screen past the culling threshold is
/// destroyed.
pub open spec fn spec_move_tiles(tiles: Seq<BorderTile>, dt: int) -> Seq<BorderTile>
    decreases tiles.len(),
{
    if tiles.len() == 0 {
        Seq::empty()
    } else {
        let rest = spec_move_tiles(tiles.drop_last(), dt);
        let moved = spec_moved_tile(tiles.last(), dt);
        if moved.x >= BORDERTILE_CULL_X {
            rest.push(moved)
        } else {
            rest
        }
    }
}

/// Every surviving tile is a moved input tile, sits at or right of the
/// culling threshold, and no lower than it started.
pub proof fn lemma_move_tiles_from(tiles: Seq<BorderTile>, dt: int)
    ensures
        forall|j: int| 0 <= j < spec_move_tiles(tiles, dt).len()
            ==> (#[trigger] spec_move_tiles(tiles, dt)[j]).x >= BORDERTILE_CULL_X,
        forall|j: int| #![trigger spec_move_tiles(tiles, dt)[j]] 0 <= j < spec_move_tiles(
            tiles,
            dt,
        ).len() ==> exists|i: int|
            0 <= i < tiles.len() && spec_move_tiles(tiles, dt)[j] == #[trigger] spec_moved_tile(
                tiles[i],
                dt,
            ),
    decreases tiles.len(),
{
    if tiles.len() > 0 {
        let rest = spec_move_tiles(tiles.drop_last(), dt);
        let moved = spec_moved_tile(tiles.last(), dt);
        let result = spec_move_tiles(tiles, dt);
        lemma_move_tiles_from(tiles.drop_last(), dt);
        assert(forall|i: int| 0 <= i < tiles.len() - 1 ==> #[trigger] tiles.drop_last()[i]
            == tiles[i]);
        assert forall|j: int| 0 <= j < result.len() implies result[j].x >= BORDERTILE_CULL_X
            && exists|i: int| 0 <= i < tiles.len() && result[j] == #[trigger] spec_moved_tile(
            tiles[i],
            dt,
        ) by {
            if moved.x >= BORDERTILE_CULL_X && j == result.len() - 1 {
                assert(result[j] == moved);
                assert(tiles.last() == tiles[tiles.len() - 1]);
                assert(result[j] == spec_moved_tile(tiles[tiles.len() - 1], dt));
            } else {
                assert(result[j] == rest[j]);
                let i = choose|i: int|
                    0 <= i < tiles.drop_last().len() && rest[j] == #[trigger] spec_moved_tile(
                        tiles.drop_last()[i],
                        dt,
                    );
                assert(result[j] == spec_moved_tile(tiles[i], dt));
            }
        }
    }
}

/// Scroll every border tile left for one frame and destroy the ones that
/// have fully left the screen. A no-op while the game is over.
pub fn bordertile_movement(tiles: &mut Vec<BorderTile>, dt: i64, game_over: bool)
    requires
        0 <= dt <= MAX_TICK_MS,
        forall|i: int| 0 <= i < old(tiles)@.len() ==> -MAX_COORD <= (#[trigger] old(
            tiles,
        )@[i]).x <= MAX_COORD,
    ensures
        game_over ==> final(tiles)@ == old(tiles)@,
        !game_over ==> final(tiles)@ == spec_move_tiles(old(tiles)@, dt as int),
{
    if game_over {
        return;
    }
    proof {
        assert(0 <= BORDERTILE_SPEED * dt <= 600_000_000_000) by (nonlinear_arith)
            requires
                0 <= dt <= 1_000_000,
        ;
    }
    let mut kept: Vec<BorderTile> = Vec::new();
    let mut i: usize = 0;
    while i < tiles.len()
        invariant
            i <= tiles@.len(),
            forall|k: int| 0 <= k < tiles@.len() ==> -MAX_COORD <= (#[trigger] tiles@[k]).x
                <= MAX_COORD,
            0 <= BORDERTILE_SPEED * dt <= 600_000_000_000,
            kept@ == spec_move_tiles(tiles@.subrange(0, i as int), dt as int),
        decreases tiles@.len() - i,
    {
        let tile = tiles[i];
        let moved = BorderTile { x: tile.x - BORDERTILE_SPEED * dt, y: tile.y, height: tile.height };
        if moved.x >= BORDERTILE_CULL_X {
            kept.push(moved);
        }
        proof {
            assert(tiles@.subrange(0, i + 1).drop_last() =~= tiles@.subrange(0, i as int));
            assert(tiles@.subrange(0, i + 1).last() == tiles@[i as int]);
        }
        i = i + 1;
    }
    proof {
        assert(tiles@.subrange(0, tiles@.len() as int) =~= tiles@);
    }
    *tiles = kept;
}

} // verus!
