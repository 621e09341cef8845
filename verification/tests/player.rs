use shooting_rst::bullet::Bullet;
use shooting_rst::player::{Player, InputState, Barrel};
use shooting_rst::vec3::Vec3;

fn no_input() -> InputState {
    InputState { shoot: false, right: false, left: false, up: false, down: false }
}

fn readied_player(bullets: usize) -> Player {
    let mut p = Player::new();
    let slots: Vec<Option<Bullet>> = (0..bullets).map(|_| Some(Bullet::new())).collect();
    p.ready(slots, -10_000, 10_000, -20_000, 20_000);
    p
}

#[test]
fn idle_ship_stays_put() {
    let mut p = readied_player(1);
    let (pos, shot) = p.physics_process(Vec3::new(100, 0, 200), 16, no_input());
    assert_eq!(pos, Vec3::new(100, 0, 200));
    assert!(shot.is_none());
}

#[test]
fn diagonal_movement_is_normalized() {
    let mut p = readied_player(0);
    let input = InputState { right: true, down: true, ..no_input() };
    let (pos, _) = p.physics_process(Vec3::new(0, 0, 0), 100, input);
    // Unit diagonal (707, 0, 707) at 5000 per second over a tenth of a
    // second: 707 * 5000 / 1000 = 3535, then 3535 * 100 / 1000 = 353.
    assert_eq!(pos, Vec3::new(353, 0, 353));
}

#[test]
fn opposing_presses_cancel() {
    let mut p = readied_player(0);
    let input = InputState { left: true, right: true, ..no_input() };
    let (pos, _) = p.physics_process(Vec3::new(40, 0, 40), 100, input);
    assert_eq!(pos, Vec3::new(40, 0, 40));
}

#[test]
fn movement_is_clamped_to_the_arena() {
    let mut p = readied_player(0);
    let input = InputState { right: true, ..no_input() };
    let (pos, _) = p.physics_process(Vec3::new(9_990, 0, 0), 1000, input);
    assert_eq!(pos.x, 10_000);
}

#[test]
fn dead_ship_neither_moves_nor_fires() {
    let mut p = readied_player(3);
    p.crash(2);
    let input = InputState { shoot: true, right: true, ..no_input() };
    let (pos, shot) = p.physics_process(Vec3::new(0, 0, 0), 100, input);
    assert_eq!(pos, Vec3::new(0, 0, 0));
    assert!(shot.is_none());
}

#[test]
fn firing_moves_at_half_speed() {
    let mut p = readied_player(3);
    let input = InputState { shoot: true, right: true, ..no_input() };
    let (pos, shot) = p.physics_process(Vec3::new(0, 0, 0), 100, input);
    assert!(shot.is_some());
    // Weighted speed 2500: 1000 * 2500 / 1000 = 2500, then * 100 / 1000.
    assert_eq!(pos, Vec3::new(250, 0, 0));
}

#[test]
fn shot_bullet_leaves_the_pool_flying() {
    let mut p = readied_player(2);
    let input = InputState { shoot: true, ..no_input() };
    let (_, shot) = p.physics_process(Vec3::new(0, 0, 0), 16, input);
    let (bullet, barrel) = shot.unwrap();
    assert!(bullet.flying);
    // After 16 thousandths the clock reads t = 1: the right barrel.
    assert_eq!(barrel, Barrel::Right);
    assert_eq!(p.magazine.get_left_num(), 1);
}

#[test]
fn barrels_alternate_with_the_clock() {
    let mut p = readied_player(4);
    let input = InputState { shoot: true, ..no_input() };
    // After 16 thousandths: t = 1, odd, right barrel.
    let (_, shot) = p.physics_process(Vec3::new(0, 0, 0), 16, input);
    assert_eq!(shot.unwrap().1, Barrel::Right);
    // After 32 thousandths: t = 3, odd again.
    let (_, shot) = p.physics_process(Vec3::new(0, 0, 0), 16, input);
    assert_eq!(shot.unwrap().1, Barrel::Right);
    // After 40 thousandths: t = 4, even, left barrel.
    let (_, shot) = p.physics_process(Vec3::new(0, 0, 0), 8, input);
    assert_eq!(shot.unwrap().1, Barrel::Left);
}

#[test]
fn empty_pool_skips_the_shot_without_failing() {
    let mut p = readied_player(0);
    let input = InputState { shoot: true, ..no_input() };
    let (_, shot) = p.physics_process(Vec3::new(0, 0, 0), 16, input);
    assert!(shot.is_none());
    let (_, shot) = p.physics_process(Vec3::new(0, 0, 0), 16, input);
    assert!(shot.is_none());
}

#[test]
fn collected_bullets_can_be_fired_again() {
    let mut p = readied_player(1);
    let mut shot = p.shoot().unwrap().0;
    assert_eq!(p.magazine.get_left_num(), 0);
    assert!(p.shoot().is_none());
    shot.hit();
    p.collect_bullet(shot);
    assert_eq!(p.magazine.get_left_num(), 1);
    assert!(p.shoot().is_some());
}

#[test]
fn crash_only_honours_hostile_layers() {
    let mut p = readied_player(0);
    assert!(!p.crash(4));
    assert!(p.alive);
    assert!(p.crash(8));
    assert!(!p.alive);
    assert_eq!(p.speed, 0);
}

#[test]
fn crash_twice_equals_crash_once() {
    let mut p = readied_player(0);
    assert!(p.crash(2));
    assert!(!p.crash(2));
    assert!(!p.alive);
}

#[test]
fn reset_revives_at_the_origin() {
    let mut p = readied_player(0);
    p.crash(2);
    let pos = p.reset();
    assert_eq!(pos, Vec3::new(0, 0, 0));
    assert!(p.alive);
    assert_eq!(p.speed, 5000);
}
