//! The whole simulation: one context struct owning every component, a
//! frame tick that runs them in their fixed order, and restart.

use vstd::prelude::*;

use crate::border::{
    bordertile_movement, fluct_high, fluct_inv, fluct_low, lemma_fluctuate_preserves_inv,
    lemma_move_tiles_from, spawn_bordertiles, spawn_init_border, spec_bottom_tile, spec_fluctuate,
    spec_init_tiles, spec_move_tiles, spec_top_tile, BorderTile, BorderTileCurrentHeight,
    BorderTileFluctuator, FluctuatingDirection,
};
use crate::collision::{collision_detection, spec_any_hit};
use crate::constants::{
    BORDERTILE_CULL_X, BORDERTILE_SPAWN_X, DEFAULT_BORDERTILE_HEIGHT, MAX_COORD, MAX_TICK_MS,
    OBSTACLE_CULL_X, OBSTACLE_SPAWN_X, WINDOW_HALF_HEIGHT, WINDOW_HEIGHT,
};
use crate::copter::{copter_movement, spec_copter_step, Copter};
use crate::obstacle::{
    lemma_move_obstacles_from, obstacle_movement, spawn_obstacles, spec_band_high, spec_band_low,
    spec_move_obstacles, Obstacle,
};
use crate::state::{update_score, GameState};

verus! {

/// The abstract value of a `GameWorld`: the same components, with the
/// entity collections as sequences.
#[verifier::ext_equal]
pub struct WorldView {
    pub state: GameState,
    pub heights: BorderTileCurrentHeight,
    pub direction: FluctuatingDirection,
    pub copter: Copter,
    pub obstacles: Seq<Obstacle>,
    pub bordertiles: Seq<BorderTile>,
}

/// An obstacle the world can hold: between its spawn station and the
/// culling threshold, vertically inside the window.
pub open spec fn obstacle_ok(obstacle: Obstacle) -> bool {
    &&& OBSTACLE_CULL_X <= obstacle.x <= OBSTACLE_SPAWN_X
    &&& -WINDOW_HALF_HEIGHT <= obstacle.y <= WINDOW_HALF_HEIGHT
}

/// A border tile the world can hold: between its spawn station and the
/// culling threshold, with a height the fluctuator can produce, anchored
/// flush to the top or the bottom edge.
pub open spec fn tile_ok(tile: BorderTile) -> bool {
    &&& BORDERTILE_CULL_X <= tile.x <= BORDERTILE_SPAWN_X
    &&& fluct_low(2 * DEFAULT_BORDERTILE_HEIGHT) <= tile.height <= fluct_high(
        2 * DEFAULT_BORDERTILE_HEIGHT,
    )
    &&& (tile.y == (WINDOW_HEIGHT - tile.height) / 2 || tile.y == -((WINDOW_HEIGHT - tile.height)
        / 2))
}

impl WorldView {
    /// Well-formedness of a whole world: every component invariant at
    /// once. The border heights satisfy the fluctuation invariant for
    /// the sum the session starts with, twice the default height.
    pub open spec fn wf(self) -> bool {
        &&& self.state.wf()
        &&& self.copter.wf()
        &&& fluct_inv(self.heights, self.direction, 2 * DEFAULT_BORDERTILE_HEIGHT)
        &&& forall|i: int| 0 <= i < self.obstacles.len() ==> obstacle_ok(
            #[trigger] self.obstacles[i],
        )
        &&& forall|i: int| 0 <= i < self.bordertiles.len() ==> tile_ok(
            #[trigger] self.bordertiles[i],
        )
    }

    /// The world a session starts in: everything at its initial value
    /// and the border walls already tiled across the window.
    pub open spec fn spec_initial() -> WorldView {
        WorldView {
            state: GameState::spec_initial(),
            heights: BorderTileCurrentHeight::spec_initial(),
            direction: FluctuatingDirection::Up,
            copter: Copter::spec_initial(),
            obstacles: Seq::empty(),
            bordertiles: spec_init_tiles(),
        }
    }
}

/// The world right after a restart: score, flag, timers and copter back
/// at their initial values, both entity collections destroyed. The
/// border heights and the fluctuation direction keep oscillating where
/// they were.
pub open spec fn spec_restart(w: WorldView) -> WorldView {
    WorldView {
        state: GameState::spec_initial(),
        heights: w.heights,
        direction: w.direction,
        copter: Copter::spec_initial(),
        obstacles: Seq::empty(),
        bordertiles: Seq::empty(),
    }
}

/// Law: restart is idempotent — restarting a freshly restarted world
/// changes nothing, whatever the world looked like before.
pub proof fn lemma_restart_idempotent(w: WorldView)
    ensures
        spec_restart(spec_restart(w)) == spec_restart(w),
{
    assert(spec_restart(spec_restart(w)) =~= spec_restart(w));
}

/// What the obstacle spawner may have drawn during one tick: `None`
/// unless its timer fired with a usable band, in which case some value
/// of the band.
pub open spec fn spec_draw_ok(
    w: WorldView,
    dt: int,
    restart_pressed: bool,
    draw: Option<i64>,
) -> bool {
    let w0 = if w.state.game_over && restart_pressed {
        spec_restart(w)
    } else {
        w
    };
    if w0.state.game_over {
        draw is None
    } else {
        let fires = w0.state.obstacle_timer.spec_fires(dt);
        let low = spec_band_low(w0.heights);
        let high = spec_band_high(w0.heights);
        if fires && low < high {
            draw matches Some(y) && low <= y < high
        } else {
            draw is None
        }
    }
}

/// One whole frame, as a pure transition on world views, given the
/// value `draw` that the obstacle spawner drew (if it spawned). Restart
/// is applied first, between frames; then, unless the game is over,
/// every component runs in the fixed order: physics, the two spawners
/// (the border spawner on the fixed-step clock), the two movers,
/// collision, scoring.
pub open spec fn spec_world_tick(
    w: WorldView,
    dt: int,
    fixed_dt: int,
    lift: bool,
    restart_pressed: bool,
    draw: Option<i64>,
) -> WorldView {
    let w0 = if w.state.game_over && restart_pressed {
        spec_restart(w)
    } else {
        w
    };
    if w0.state.game_over {
        w0
    } else {
        let copter = spec_copter_step(w0.copter, dt, lift);
        let obstacle_timer = w0.state.obstacle_timer.spec_after(dt);
        let bordertile_timer = w0.state.bordertile_timer.spec_after(fixed_dt);
        let fluct = if w0.state.bordertile_timer.spec_fires(fixed_dt) {
            spec_fluctuate(w0.heights, w0.direction)
        } else {
            (w0.heights, w0.direction)
        };
        let obstacles = spec_move_obstacles(spec_obstacles_after_spawn(w0, draw), dt);
        let bordertiles = spec_move_tiles(spec_tiles_after_spawn(w0, fixed_dt), dt);
        let over = spec_any_hit(copter, obstacles, bordertiles);
        let score = if over {
            w0.state.score as int
        } else {
            w0.state.score + dt
        };
        WorldView {
            state: GameState {
                score: score as i64,
                game_over: over,
                obstacle_timer,
                bordertile_timer,
            },
            heights: fluct.0,
            direction: fluct.1,
            copter,
            obstacles,
            bordertiles,
        }
    }
}

/// The whole simulation context: the session-wide state and every live
/// entity, owned in plain containers and mutated only through the tick.
pub struct GameWorld {
    pub state: GameState,
    pub heights: BorderTileCurrentHeight,
    pub fluctuator: BorderTileFluctuator,
    pub copter: Copter,
    pub obstacles: Vec<Obstacle>,
    pub bordertiles: Vec<BorderTile>,
}

impl View for GameWorld {
    type V = WorldView;

    open spec fn view(&self) -> WorldView {
        WorldView {
            state: self.state,
            heights: self.heights,
            direction: self.fluctuator.direction,
            copter: self.copter,
            obstacles: self.obstacles@,
            bordertiles: self.bordertiles@,
        }
    }
}

impl GameWorld {
    /// Set up a session: initial state everywhere, and the initial
    /// border already tiled across both window edges.
    pub fn new() -> (world: GameWorld)
        ensures
            world@ == WorldView::spec_initial(),
            world@.wf(),
    {
        let world = GameWorld {
            state: GameState::new(),
            heights: BorderTileCurrentHeight::new(),
            fluctuator: BorderTileFluctuator::new(),
            copter: Copter::new(),
            obstacles: Vec::new(),
            bordertiles: spawn_init_border(),
        };
        proof {
            assert(world@ =~= WorldView::spec_initial());
            assert forall|i: int| 0 <= i < world@.bordertiles.len() implies tile_ok(
                #[trigger] world@.bordertiles[i],
            ) by {
                assert(world@.bordertiles[i] == spec_init_tiles()[i]);
            }
        }
        world
    }

    /// React to the restart signal: on its rising edge while the game is
    /// over, wipe the session back to its initial shape — score 0, flag
    /// cleared, copter at its spawn point, both timers re-armed, every
    /// obstacle and border tile destroyed. At any other time do nothing.
    pub fn restart(&mut self, restart_pressed: bool)
        ensures
            old(self)@.state.game_over && restart_pressed ==> final(self)@ == spec_restart(
                old(self)@,
            ),
            !(old(self)@.state.game_over && restart_pressed) ==> final(self)@ == old(self)@,
            old(self)@.wf() ==> final(self)@.wf(),
    {
        if self.state.game_over && restart_pressed {
            self.state = GameState::new();
            self.copter = Copter::new();
            self.obstacles = Vec::new();
            self.bordertiles = Vec::new();
            proof {
                assert(self@ =~= spec_restart(old(self)@));
            }
        } else {
            proof {
                assert(self@ =~= old(self)@);
            }
        }
    }

    /// Run one frame of the simulation, in the fixed component order:
    /// restart (between frames), copter physics, obstacle spawner,
    /// border spawner on its fixed-step clock, the two movers, collision
    /// detection, scoring. `dt` is the variable frame time, `fixed_dt`
    /// the advance of the fixed-step clock, both in milliseconds. The
    /// new world is exactly `spec_world_tick` for some draw the obstacle
    /// spawner made (`spec_draw_ok` pins when there is one and the band
    /// it lies in).
    pub fn tick(&mut self, dt: i64, fixed_dt: i64, lift: bool, restart_pressed: bool)
        requires
            old(self)@.wf(),
            0 <= dt <= MAX_TICK_MS,
            0 <= fixed_dt <= MAX_TICK_MS,
            -MAX_COORD <= old(self)@.copter.y <= MAX_COORD,
            old(self)@.state.score + dt <= i64::MAX,
        ensures
            final(self)@.wf(),
            exists|draw: Option<i64>|
                spec_draw_ok(old(self)@, dt as int, restart_pressed, draw) && final(self)@
                    == spec_world_tick(
                    old(self)@,
                    dt as int,
                    fixed_dt as int,
                    lift,
                    restart_pressed,
                    draw,
                ),
    {
        self.restart(restart_pressed);
        let ghost w0 = self@;
        proof {
            assert(w0.wf());
            assert(fluct_low(2 * DEFAULT_BORDERTILE_HEIGHT) == 25_000_000);
            assert(fluct_high(2 * DEFAULT_BORDERTILE_HEIGHT) == 125_000_000);
        }
        copter_movement(&mut self.copter, dt, lift, self.state.game_over);
        spawn_obstacles(&mut self.state, &self.heights, &mut self.obstacles, dt);
        let ghost draw: Option<i64> = if !w0.state.game_over && w0.state.obstacle_timer.spec_fires(
            dt as int,
        ) && spec_band_low(w0.heights) < spec_band_high(w0.heights) {
            Some(
                choose|y: i64|
                    spec_band_low(w0.heights) <= y < spec_band_high(w0.heights) && self.obstacles@
                        == w0.obstacles.push(Obstacle { x: OBSTACLE_SPAWN_X, y }),
            )
        } else {
            None
        };
        spawn_bordertiles(
            &mut self.state,
            &mut self.fluctuator,
            &mut self.heights,
            &mut self.bordertiles,
            fixed_dt,
        );
        proof {
            if !w0.state.game_over && w0.state.bordertile_timer.spec_fires(fixed_dt as int) {
                lemma_fluctuate_preserves_inv(
                    w0.heights,
                    w0.direction,
                    2 * DEFAULT_BORDERTILE_HEIGHT,
                );
            }
        }
        obstacle_movement(&mut self.obstacles, dt, self.state.game_over);
        bordertile_movement(&mut self.bordertiles, dt, self.state.game_over);
        proof {
            if !w0.state.game_over {
                lemma_move_obstacles_from(spec_obstacles_after_spawn(w0, draw), dt as int);
                lemma_move_tiles_from(spec_tiles_after_spawn(w0, fixed_dt as int), dt as int);
                assert(0 <= 600_000 * dt <= 600_000_000_000) by (nonlinear_arith)
                    requires
                        0 <= dt <= 1_000_000,
                ;
                assert(-500_000_000_000 <= self.copter.velocity * dt <= 500_000_000_000)
                    by (nonlinear_arith)
                    requires
                        -500_000 <= self.copter.velocity <= 500_000,
                        0 <= dt <= 1_000_000,
                ;
            }
        }
        collision_detection(&mut self.state, &self.copter, &self.obstacles, &self.bordertiles);
        update_score(&mut self.state, dt);
        proof {
            let target = spec_world_tick(
                old(self)@,
                dt as int,
                fixed_dt as int,
                lift,
                restart_pressed,
                draw,
            );
            assert(spec_draw_ok(old(self)@, dt as int, restart_pressed, draw));
            assert(self@ =~= target);
        }
    }
}

/// The obstacle sequence of a tick after spawning, before movement.
pub open spec fn spec_obstacles_after_spawn(w0: WorldView, draw: Option<i64>) -> Seq<Obstacle> {
    match draw {
        Some(y) => w0.obstacles.push(Obstacle { x: OBSTACLE_SPAWN_X, y }),
        None => w0.obstacles,
    }
}

/// The border tile sequence of a tick after spawning, before movement.
pub open spec fn spec_tiles_after_spawn(w0: WorldView, fixed_dt: int) -> Seq<BorderTile> {
    if w0.state.bordertile_timer.spec_fires(fixed_dt) {
        let fluct = spec_fluctuate(w0.heights, w0.direction);
        w0.bordertiles.push(
            spec_top_tile(BORDERTILE_SPAWN_X as int, fluct.0.top_border as int),
        ).push(spec_bottom_tile(BORDERTILE_SPAWN_X as int, fluct.0.bottom_border as int))
    } else {
        w0.bordertiles
    }
}

} // verus!
