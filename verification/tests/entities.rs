use shooting_rst::alien::{Alien, AlienProcessPattern};
use shooting_rst::alien_bullet::AlienBullet;
use shooting_rst::bullet::Bullet;
use shooting_rst::vec3::Vec3;

fn readied_alien() -> Alien {
    let mut a = Alien::new();
    a.ready(
        -10_000, 10_000, -20_000, 20_000, -12_000, 12_000, -28_000, 28_000, 1500, 6000,
    );
    a
}

#[test]
fn bullet_flies_forward_at_constant_speed() {
    let b = Bullet::new();
    let pos = b.physics_process(Vec3::new(100, 0, 0), 16);
    assert_eq!(pos, Vec3::new(100, 0, -80));
}

#[test]
fn bullet_hit_twice_equals_hit_once() {
    let mut b = Bullet::new();
    b.flying = true;
    let first = b.hit();
    assert!(first);
    assert!(!b.flying);
    let again = b.hit();
    assert!(!again);
    assert!(!b.flying);
}

#[test]
fn alien_bullet_moves_along_its_heading() {
    let mut b = AlienBullet::new();
    b.ready(-12_000, 12_000, -28_000, 28_000);
    b.set_dir(Vec3::new(0, 0, -2000));
    b.flying = true;
    assert_eq!(b.direction, Vec3::new(0, 0, -1000));
    let (pos, collect) = b.physics_process(Vec3::new(0, 0, 0), 100);
    assert_eq!(pos, Vec3::new(0, 0, -500));
    assert!(!collect);
}

#[test]
fn alien_bullet_self_destructs_past_the_arena() {
    let mut b = AlienBullet::new();
    b.ready(-12_000, 12_000, -28_000, 28_000);
    b.flying = true;
    let (pos, collect) = b.physics_process(Vec3::new(0, 0, 27_900), 1000);
    assert_eq!(pos, Vec3::new(0, 0, 32_900));
    assert!(collect);
    assert!(!b.flying);
    // Grounded: the same signal again is a no-op.
    let (_, collect_again) = b.physics_process(Vec3::new(0, 0, 32_900), 1000);
    assert!(!collect_again);
}

#[test]
fn alien_bullet_degenerate_direction_recovers_default() {
    let mut b = AlienBullet::new();
    b.set_dir(Vec3::new(0, 0, 0));
    assert_eq!(b.direction, Vec3::new(0, 0, 1000));
}

#[test]
fn alien_default_direction_recovers_on_degenerate_request() {
    let mut a = Alien::new();
    a.set_dir(Vec3::new(0, 0, 0));
    assert_eq!(a.direction, Vec3::new(0, 0, -1000));
}

#[test]
fn alien_shot_only_reacts_to_player_bullet_layer() {
    let mut a = readied_alien();
    assert!(a.alive);
    // Wrong layer: ignored, still alive.
    assert!(!a.shooted(2));
    assert!(a.alive);
    // The player-bullet layer destroys it and halts it.
    assert!(a.shooted(4));
    assert!(!a.alive);
    assert_eq!(a.speed, 0);
}

#[test]
fn alien_shot_twice_equals_shot_once() {
    let mut a = readied_alien();
    assert!(a.shooted(4));
    let speed_after_first = a.speed;
    assert!(!a.shooted(4));
    assert!(!a.alive);
    assert_eq!(a.speed, speed_after_first);
}

#[test]
fn bounce_pattern_rebounds_at_the_stage_edge() {
    let mut a = readied_alien();
    a.set_process(AlienProcessPattern::Default);
    let (pos, collect) = a.physics_process(Vec3::new(8_000, 0, 0), 1000);
    assert_eq!(pos, Vec3::new(13_000, 0, 0));
    assert!(!collect);
    assert_eq!(a.speed, -5000);
    // Heading back in: no further flip.
    let (pos, _) = a.physics_process(pos, 1000);
    assert_eq!(pos, Vec3::new(8_000, 0, 0));
    assert_eq!(a.speed, -5000);
}

#[test]
fn invasion_pattern_marches_down_and_exits() {
    let mut a = readied_alien();
    a.set_process(AlienProcessPattern::Invasion);
    let (pos, collect) = a.physics_process(Vec3::new(0, 0, 27_900), 100);
    assert_eq!(pos, Vec3::new(0, 0, 28_400));
    assert!(collect);
    assert!(!a.alive);
}

#[test]
fn dir_pattern_follows_the_heading() {
    let mut a = readied_alien();
    a.set_process(AlienProcessPattern::Dir);
    a.set_dir(Vec3::new(1000, 0, 1000));
    assert_eq!(a.direction, Vec3::new(707, 0, 707));
    let (pos, collect) = a.physics_process(Vec3::new(0, 0, 0), 1000);
    // 707 * 5000 / 1000 = 3535 per second along each diagonal axis.
    assert_eq!(pos, Vec3::new(3535, 0, 3535));
    assert!(!collect);
}

#[test]
fn change_dir_random_only_retargets_the_dir_pattern() {
    let mut a = readied_alien();
    a.set_dir(Vec3::new(0, 0, 1000));
    a.set_process(AlienProcessPattern::Invasion);
    a.change_dir_random(707, 707);
    assert_eq!(a.direction, Vec3::new(0, 0, 1000));
    a.set_process(AlienProcessPattern::Dir);
    a.change_dir_random(707, 707);
    assert_eq!(a.direction, Vec3::new(-707, 0, 707));
}

#[test]
fn speed_up_scales_by_thousandths() {
    let mut a = readied_alien();
    a.reset();
    a.speed_up(1100);
    assert_eq!(a.speed, 5500);
}

#[test]
fn timer_spans_scale_by_inverse_heat() {
    let mut a = readied_alien();
    a.set_dir_change_span_random(3000, 500);
    assert_eq!(a.change_dir_wait, 1500);
    a.set_fire_span_random(8000, 250);
    assert_eq!(a.fire_wait, 2000);
}

#[test]
fn living_alien_fires_along_its_heading() {
    let a = readied_alien();
    let cmd = a
        .fire(Vec3::new(0, 0, 0), Vec3::new(0, 0, 9000), false, 2)
        .unwrap();
    assert_eq!(cmd.dir, a.direction);
    assert_eq!(cmd.speed, 6500);
    assert_eq!(cmd.kind, 2);
    assert_eq!(cmd.pos, Vec3::new(0, 0, 0));
}

#[test]
fn living_alien_fires_toward_the_player() {
    let a = readied_alien();
    let cmd = a
        .fire(Vec3::new(0, 0, 0), Vec3::new(3000, 0, 3000), true, 0)
        .unwrap();
    assert_eq!(cmd.dir, Vec3::new(707, 0, 707));
}

#[test]
fn alien_on_top_of_player_aims_along_its_heading() {
    let a = readied_alien();
    let cmd = a.fire(Vec3::new(5, 0, 5), Vec3::new(5, 0, 5), true, 0).unwrap();
    assert_eq!(cmd.dir, a.direction);
}

#[test]
fn destroyed_alien_fires_nothing() {
    let mut a = readied_alien();
    a.destruct();
    assert!(a.fire(Vec3::new(0, 0, 0), Vec3::new(0, 0, 9000), false, 0).is_none());
}
