//! Score and game-over bookkeeping, with the two spawn timers.

use vstd::prelude::*;

use crate::constants::{BORDERTILE_SPAWN_TIME, MAX_TICK_MS, OBSTACLE_SPAWN_TIME};
use crate::timer::RepeatTimer;

verus! {

/// The session-wide mutable state: the running score, the game-over
/// flag, and the repeating timers that pace the two spawners.
///
/// The score counts milliseconds of play: an integer accumulator, chosen
/// over a fractional one so that scoring is exact; a display divides it
/// by 1000 for whole seconds.
#[derive(Clone, Copy, Debug, PartialEq, Eq, Structural)]
pub struct GameState {
    /// Milliseconds survived since the last restart.
    pub score: i64,
    /// True from the first collision until the next restart.
    pub game_over: bool,
    /// Paces obstacle spawning.
    pub obstacle_timer: RepeatTimer,
    /// Paces border fluctuation and tile spawning.
    pub bordertile_timer: RepeatTimer,
}

impl GameState {
    pub open spec fn wf(self) -> bool {
        &&& 0 <= self.score
        &&& self.obstacle_timer.wf()
        &&& self.bordertile_timer.wf()
        &&& self.obstacle_timer.period == OBSTACLE_SPAWN_TIME
        &&& self.bordertile_timer.period == BORDERTILE_SPAWN_TIME
    }

    /// The state a session starts in, and the one restart returns to:
    /// no score, not over, both timers at the start of a round.
    pub open spec fn spec_initial() -> GameState {
        GameState {
            score: 0,
            game_over: false,
            obstacle_timer: RepeatTimer { period: OBSTACLE_SPAWN_TIME, elapsed: 0 },
            bordertile_timer: RepeatTimer { period: BORDERTILE_SPAWN_TIME, elapsed: 0 },
        }
    }

    pub fn new() -> (state: GameState)
        ensures
            state == GameState::spec_initial(),
            state.wf(),
    {
        GameState {
            score: 0,
            game_over: false,
            obstacle_timer: RepeatTimer::new(OBSTACLE_SPAWN_TIME),
            bordertile_timer: RepeatTimer::new(BORDERTILE_SPAWN_TIME),
        }
    }

    /// The score in whole seconds, as a display shows it.
    pub fn score_seconds(&self) -> (seconds: i64)
        requires
            self.score >= 0,
        ensures
            seconds == self.score / 1000,
    {
        self.score / 1000
    }
}

impl Default for GameState {
    fn default() -> (state: GameState)
        ensures
            state == GameState::spec_initial(),
            state.wf(),
    {
        GameState::new()
    }
}

/// Accrue play time into the score: while the game runs, the score grows
/// by exactly the frame time; once the game is over it freezes.
pub fn update_score(game_state: &mut GameState, dt: i64)
    requires
        0 <= dt <= MAX_TICK_MS,
        old(game_state).score + dt <= i64::MAX,
    ensures
        old(game_state).game_over ==> *final(game_state) == *old(game_state),
        !old(game_state).game_over ==> *final(game_state) == (GameState {
            score: (old(game_state).score + dt) as i64,
            ..*old(game_state)
        }),
{
    if game_state.game_over {
        return;
    }
    game_state.score = game_state.score + dt;
}

} // verus!
