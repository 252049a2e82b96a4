//! Verified simulation engine for a 2D side-scrolling avoidance game: a
//! copter falls under gravity and rises while lift is held, scrolling
//! obstacles and border tiles stream in from the right, and the run ends
//! when the copter touches any of them.
//!
//! All geometry is fixed-point: coordinates, sizes and speeds are `i64`
//! counts of subpixels (1_000_000 per screen pixel), and time is counted
//! in whole milliseconds, so every update is exact integer arithmetic.

pub mod border;
pub mod collision;
pub mod constants;
pub mod copter;
pub mod obstacle;
pub mod state;
pub mod timer;
pub mod world;
