use copter::constants::{MAX_TICK_MS, VELOCITY_LIMIT};
use copter::copter::{copter_movement, Copter};

#[test]
fn gravity_step_exact() {
    let mut c = Copter { y: 0, velocity: 0 };
    copter_movement(&mut c, 100, false, false);
    // velocity: 0 - 1000 * 100 - 2000 = -102_000; y: -102_000 * 100
    assert_eq!(c.velocity, -102_000);
    assert_eq!(c.y, -10_200_000);
}

#[test]
fn lift_step_exact() {
    let mut c = Copter { y: 0, velocity: 0 };
    copter_movement(&mut c, 100, true, false);
    // velocity: 0 - 1000*100 - 2000 + 2250*100 + 2000 = 125_000
    assert_eq!(c.velocity, 125_000);
    assert_eq!(c.y, 12_500_000);
}

#[test]
fn zero_dt_still_biases_downward() {
    let mut c = Copter { y: 0, velocity: 0 };
    copter_movement(&mut c, 0, false, false);
    // the per-frame bias applies even with no elapsed time
    assert_eq!(c.velocity, -2000);
    assert_eq!(c.y, 0);
}

#[test]
fn zero_dt_lift_cancels_bias() {
    let mut c = Copter { y: 7, velocity: 0 };
    copter_movement(&mut c, 0, true, false);
    assert_eq!(c.velocity, 0);
    assert_eq!(c.y, 7);
}

#[test]
fn falling_monotonically_reaches_clamp_and_stays() {
    let mut c = Copter { y: 0, velocity: 0 };
    let mut previous = c.velocity;
    let mut clamped = false;
    for _ in 0..20 {
        copter_movement(&mut c, 100, false, false);
        if clamped {
            assert_eq!(c.velocity, -VELOCITY_LIMIT);
        } else {
            assert!(c.velocity < previous);
        }
        assert!(c.velocity >= -VELOCITY_LIMIT);
        if c.velocity == -VELOCITY_LIMIT {
            clamped = true;
        }
        previous = c.velocity;
    }
    assert!(clamped);
    // 0 -> -102_000 per 100 ms step, clamped on the fifth step
    assert_eq!(c.velocity, -VELOCITY_LIMIT);
}

#[test]
fn upward_clamp_bounds_velocity() {
    let mut c = Copter { y: 0, velocity: 499_000 };
    copter_movement(&mut c, 1000, true, false);
    // 499_000 - 1_000_000 - 2000 + 2_250_000 + 2000 = 1_749_000, clamped
    assert_eq!(c.velocity, VELOCITY_LIMIT);
    assert_eq!(c.y, VELOCITY_LIMIT * 1000);
}

#[test]
fn game_over_freezes_physics() {
    let mut c = Copter { y: 123, velocity: 456 };
    copter_movement(&mut c, 100, true, true);
    assert_eq!(c.y, 123);
    assert_eq!(c.velocity, 456);
}

#[test]
fn largest_frame_time_accepted() {
    let mut c = Copter { y: 0, velocity: 0 };
    copter_movement(&mut c, MAX_TICK_MS, false, false);
    assert_eq!(c.velocity, -VELOCITY_LIMIT);
    assert_eq!(c.y, -VELOCITY_LIMIT * MAX_TICK_MS);
}
