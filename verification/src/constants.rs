//! Fixed configuration of the simulation.
//!
//! Geometry is measured in subpixels (`SUBPIXELS_PER_PIXEL` per screen
//! pixel) and time in milliseconds, so speeds are subpixels per
//! millisecond and accelerations subpixels per millisecond squared.

use vstd::prelude::*;

verus! {

/// Subpixel fixed-point scale: every coordinate and size below is an
/// `i64` count of subpixels, 1_000_000 to the screen pixel.
pub const SUBPIXELS_PER_PIXEL: i64 = 1_000_000;

// Window settings (1024 x 720 pixels, origin at the screen centre).
pub const WINDOW_WIDTH: i64 = 1024 * SUBPIXELS_PER_PIXEL;
pub const WINDOW_HEIGHT: i64 = 720 * SUBPIXELS_PER_PIXEL;
pub const WINDOW_HALF_WIDTH: i64 = 512 * SUBPIXELS_PER_PIXEL;
pub const WINDOW_HALF_HEIGHT: i64 = 360 * SUBPIXELS_PER_PIXEL;

// Copter settings. The copter never moves horizontally: it hangs at
// `COPTER_SPAWN_X` while the world scrolls past it.
pub const COPTER_WIDTH: i64 = 50 * SUBPIXELS_PER_PIXEL;
pub const COPTER_HEIGHT: i64 = 50 * SUBPIXELS_PER_PIXEL;
pub const COPTER_HALF_WIDTH: i64 = 25 * SUBPIXELS_PER_PIXEL;
pub const COPTER_HALF_HEIGHT: i64 = 25 * SUBPIXELS_PER_PIXEL;
pub const COPTER_SPAWN_X: i64 = -300 * SUBPIXELS_PER_PIXEL;
pub const COPTER_SPAWN_Y: i64 = 0;

// Vertical physics.
/// Downward acceleration, subpixels per millisecond squared (1000 px/s^2).
pub const GRAVITY: i64 = 1000;
/// Upward acceleration while lift is held, subpixels per millisecond
/// squared (2250 px/s^2).
pub const LIFT: i64 = 2250;
/// Per-frame velocity bias, subpixels per millisecond (2 px/s). It is
/// added once per frame independent of the frame time: a constant extra
/// downward drift, cancelled while lift is held, that makes direction
/// changes feel snappy.
pub const NEGATE_DELAY: i64 = 2000;
/// Terminal speed in both directions, subpixels per millisecond (500 px/s).
pub const VELOCITY_LIMIT: i64 = 500_000;

// Obstacle settings.
pub const OBSTACLE_SPAWN_TIME: i64 = 1250;
pub const OBSTACLE_HEIGHT: i64 = 250 * SUBPIXELS_PER_PIXEL;
pub const OBSTACLE_HALF_HEIGHT: i64 = 125 * SUBPIXELS_PER_PIXEL;
pub const OBSTACLE_WIDTH: i64 = 100 * SUBPIXELS_PER_PIXEL;
pub const OBSTACLE_HALF_WIDTH: i64 = 50 * SUBPIXELS_PER_PIXEL;
/// Leftward scroll speed, subpixels per millisecond (600 px/s).
pub const OBSTACLE_SPEED: i64 = 600_000;
/// Obstacles appear just past the right edge of the window.
pub const OBSTACLE_SPAWN_X: i64 = WINDOW_HALF_WIDTH + OBSTACLE_HALF_WIDTH;
/// An obstacle whose centre falls below this has scrolled fully off the
/// left edge and is destroyed — the mirror of the spawn station, and the
/// same half-window-and-half-width form as the border tiles use.
pub const OBSTACLE_CULL_X: i64 = -WINDOW_HALF_WIDTH - OBSTACLE_HALF_WIDTH;

// Border tile settings. The tile width divides the window width exactly.
pub const DEFAULT_BORDERTILE_HEIGHT: i64 = 75 * SUBPIXELS_PER_PIXEL;
pub const MIN_BORDERTILE_HEIGHT: i64 = 50 * SUBPIXELS_PER_PIXEL;
pub const MAX_BORDERTILE_HEIGHT: i64 = 125 * SUBPIXELS_PER_PIXEL;
pub const BORDERTILE_WIDTH: i64 = 64 * SUBPIXELS_PER_PIXEL;
pub const BORDERTILE_HALF_WIDTH: i64 = 32 * SUBPIXELS_PER_PIXEL;
/// Border tiles scroll at the obstacle speed.
pub const BORDERTILE_SPEED: i64 = OBSTACLE_SPEED;
pub const BORDERTILE_SPAWN_TIME: i64 = 300;
/// Fresh border tiles appear one tile width past the right edge.
pub const BORDERTILE_SPAWN_X: i64 = WINDOW_HALF_WIDTH + BORDERTILE_WIDTH;
/// A border tile whose centre falls below this is fully off screen and is
/// destroyed.
pub const BORDERTILE_CULL_X: i64 = -WINDOW_HALF_WIDTH - BORDERTILE_HALF_WIDTH;
/// Tiles needed to cover the window edge to edge at session start:
/// the window width divided by the tile width, rounded up (here exact).
pub const INIT_BORDERTILE_COUNT: usize = 16;

// Border fluctuation settings.
/// Height change per fluctuation tick, in subpixels (5 px). A fixed
/// per-tick delta: the oscillation counts ticks, it does not integrate
/// frame time.
pub const FLUCTUATION_PER_FRAME: i64 = 5 * SUBPIXELS_PER_PIXEL;

// Machine limits. These keep every tick's arithmetic inside `i64`; they
// are far beyond anything a real session reaches.
/// Largest frame delta a tick accepts, in milliseconds.
pub const MAX_TICK_MS: i64 = 1_000_000;
/// Largest coordinate magnitude a tick accepts, in subpixels.
pub const MAX_COORD: i64 = 1_000_000_000_000_000_000;
/// Largest entity size magnitude the collision tests accept, in subpixels.
pub const MAX_SIZE: i64 = 1_000_000_000_000;

} // verus!
