use shooting_rst::env::{Env, AlienEnv};
use shooting_rst::vec3::Vec3;

fn arena() -> Env {
    let mut env = Env::new();
    env.init(-10_000, 10_000, -20_000, 20_000);
    env
}

#[test]
fn clamp_in_bounds_is_noop() {
    let env = arena();
    let p = Vec3::new(5_000, 123, -19_000);
    assert_eq!(env.clamp(p), p);
}

#[test]
fn clamp_pins_every_axis_into_bounds() {
    let env = arena();
    let p = Vec3::new(-11_000, 42, 25_000);
    let c = env.clamp(p);
    assert_eq!(c, Vec3::new(-10_000, 42, 20_000));
    assert!(env.left_limit <= c.x && c.x <= env.right_limit);
    assert!(env.up_limit <= c.z && c.z <= env.down_limit);
}

#[test]
fn clamp_is_idempotent() {
    let env = arena();
    let p = Vec3::new(99_999, -7, -99_999);
    let once = env.clamp(p);
    let twice = env.clamp(once);
    assert_eq!(once, twice);
}

#[test]
fn clamp_leaves_vertical_axis_alone() {
    let env = arena();
    let p = Vec3::new(0, 1_000_000, 0);
    assert_eq!(env.clamp(p).y, 1_000_000);
}

#[test]
fn gone_far_away_is_strict_exceedance() {
    let mut env = AlienEnv::new();
    env.init(-10_000, 10_000, -20_000, 20_000);
    assert!(!env.gone_far_away(Vec3::new(0, 0, 0)));
    assert!(!env.gone_far_away(Vec3::new(-10_000, 0, 20_000)));
    assert!(env.gone_far_away(Vec3::new(-10_001, 0, 0)));
    assert!(env.gone_far_away(Vec3::new(10_001, 0, 0)));
    assert!(env.gone_far_away(Vec3::new(0, 0, -20_001)));
    assert!(env.gone_far_away(Vec3::new(0, 0, 20_001)));
}

#[test]
fn session_clock_advances() {
    let mut env = arena();
    env.advance_time(16);
    env.advance_time(16);
    assert_eq!(env.time, 32);
}
