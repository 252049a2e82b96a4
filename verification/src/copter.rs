//! Copter vertical physics: gravity, lift and terminal-speed clamping.

use vstd::prelude::*;

use crate::constants::{
    COPTER_SPAWN_Y, GRAVITY, LIFT, MAX_COORD, MAX_TICK_MS, NEGATE_DELAY, VELOCITY_LIMIT,
};

verus! {

/// The one copter of a session. Its horizontal position is fixed at
/// `COPTER_SPAWN_X`; only the vertical position and velocity move.
#[derive(Clone, Copy, Debug, PartialEq, Eq, Structural)]
pub struct Copter {
    /// Vertical position of the centre, in subpixels.
    pub y: i64,
    /// Vertical velocity, in subpixels per millisecond; positive is up.
    pub velocity: i64,
}

/// `v` forced into the terminal-speed range.
pub open spec fn spec_clamp_velocity(v: int) -> int {
    if v < -VELOCITY_LIMIT {
        -VELOCITY_LIMIT as int
    } else if v > VELOCITY_LIMIT {
        VELOCITY_LIMIT as int
    } else {
        v
    }
}

/// The velocity after one physics frame: gravity and the constant
/// downward bias always apply; while lift is held a stronger upward
/// acceleration and the opposite bias are added on top; the result is
/// clamped to the terminal range.
pub open spec fn spec_new_velocity(v: int, dt: int, lift: bool) -> int {
    let fallen = v - GRAVITY * dt - NEGATE_DELAY;
    let driven = if lift {
        fallen + LIFT * dt + NEGATE_DELAY
    } else {
        fallen
    };
    spec_clamp_velocity(driven)
}

/// One physics frame: the new velocity, then the position advanced by it.
pub open spec fn spec_copter_step(copter: Copter, dt: int, lift: bool) -> Copter {
    let v = spec_new_velocity(copter.velocity as int, dt, lift);
    Copter { y: (copter.y + v * dt) as i64, velocity: v as i64 }
}

impl Copter {
    /// The velocity never exceeds the terminal range.
    pub open spec fn wf(self) -> bool {
        -VELOCITY_LIMIT <= self.velocity <= VELOCITY_LIMIT
    }

    /// The copter as it hangs at session start: at the spawn point, at rest.
    pub open spec fn spec_initial() -> Copter {
        Copter { y: COPTER_SPAWN_Y, velocity: 0 }
    }

    pub fn new() -> (copter: Copter)
        ensures
            copter == Copter::spec_initial(),
            copter.wf(),
    {
        Copter { y: COPTER_SPAWN_Y, velocity: 0 }
    }
}

/// Integrate one frame of vertical physics. While the game is over this
/// is a no-op; otherwise the copter's state advances exactly by
/// `spec_copter_step`. The position is not confined to the screen here:
/// leaving the play field is the collision detector's business.
pub fn copter_movement(copter: &mut Copter, dt: i64, lift: bool, game_over: bool)
    requires
        old(copter).wf(),
        0 <= dt <= MAX_TICK_MS,
        -MAX_COORD <= old(copter).y <= MAX_COORD,
    ensures
        game_over ==> *final(copter) == *old(copter),
        !game_over ==> *final(copter) == spec_copter_step(*old(copter), dt as int, lift),
        final(copter).wf(),
{
    if game_over {
        return;
    }
    proof {
        assert(0 <= GRAVITY * dt <= 1_000_000_000 && 0 <= LIFT * dt <= 2_250_000_000)
            by (nonlinear_arith)
            requires
                0 <= dt <= 1_000_000,
        ;
    }
    let mut v: i64 = copter.velocity - GRAVITY * dt - NEGATE_DELAY;
    if lift {
        v = v + LIFT * dt + NEGATE_DELAY;
    }
    if v < -VELOCITY_LIMIT {
        v = -VELOCITY_LIMIT;
    }
    if v > VELOCITY_LIMIT {
        v = VELOCITY_LIMIT;
    }
    copter.velocity = v;
    proof {
        assert(-500_000_000_000 <= v * dt <= 500_000_000_000) by (nonlinear_arith)
            requires
                -500_000 <= v <= 500_000,
                0 <= dt <= 1_000_000,
        ;
    }
    copter.y = copter.y + v * dt;
}

/// The velocity after a run of physics frames, none of them with lift.
pub open spec fn spec_velocity_after_fall(v: int, dts: Seq<int>) -> int
    decreases dts.len(),
{
    if dts.len() == 0 {
        v
    } else {
        spec_velocity_after_fall(spec_new_velocity(v, dts[0], false), dts.drop_first())
    }
}

/// Law: with lift released and any nonnegative frame time, one physics
/// frame strictly lowers the velocity until it reaches the negative
/// terminal bound, where it stays.
pub proof fn lemma_gravity_monotone(copter: Copter, dt: int)
    requires
        copter.wf(),
        dt >= 0,
    ensures
        spec_copter_step(copter, dt, false).velocity <= copter.velocity,
        copter.velocity > -VELOCITY_LIMIT ==> spec_copter_step(copter, dt, false).velocity
            < copter.velocity,
        copter.velocity == -VELOCITY_LIMIT ==> spec_copter_step(copter, dt, false).velocity
            == -VELOCITY_LIMIT,
        spec_copter_step(copter, dt, false).wf(),
{
    assert(GRAVITY * dt >= 0) by (nonlinear_arith)
        requires
            dt >= 0,
    ;
}

/// Law: with lift released, the velocity never rises over a whole run of
/// frames: it stays within the terminal range, never exceeds its starting
/// value, and once at the negative terminal bound it remains there.
pub proof fn lemma_gravity_monotone_run(copter: Copter, dts: Seq<int>)
    requires
        copter.wf(),
        forall|i: int| 0 <= i < dts.len() ==> dts[i] >= 0,
    ensures
        spec_velocity_after_fall(copter.velocity as int, dts) <= copter.velocity,
        -VELOCITY_LIMIT <= spec_velocity_after_fall(copter.velocity as int, dts),
        copter.velocity == -VELOCITY_LIMIT ==> spec_velocity_after_fall(
            copter.velocity as int,
            dts,
        ) == -VELOCITY_LIMIT,
    decreases dts.len(),
{
    if dts.len() > 0 {
        lemma_gravity_monotone(copter, dts[0]);
        let next = Copter {
            y: copter.y,
            velocity: spec_new_velocity(copter.velocity as int, dts[0], false) as i64,
        };
        lemma_gravity_monotone_run(next, dts.drop_first());
    }
}

} // verus!
