//! End to end: an invasion alien crosses the arena, leaves it, and comes
//! back to the pool through exactly one collect notification.

use shooting_rst::alien::Alien;
use shooting_rst::stage::{Stage, SpawnDraws};
use shooting_rst::vec3::Vec3;

#[test]
fn invasion_alien_crosses_exits_and_is_collected_once() {
    let mut alien = Alien::new();
    alien.ready(
        -10_000, 10_000, -20_000, 20_000, -12_000, 12_000, -28_000, 28_000, 1500, 6000,
    );
    let mut stage = Stage::new();
    stage.ready(
        vec![Some(alien)],
        Vec::new(),
        -10_000,
        10_000,
        -20_000,
        20_000,
    );
    assert_eq!(stage.aliens_magazine.get_left_num(), 1);

    let draws = SpawnDraws {
        interval_draw: 1000,
        invasion: true,
        spawn_x: 2_500,
        spawn_z: -10_000,
        from_right: false,
        dir_span_draw: 1500,
        fire_span_draw: 6000,
    };
    let (spawned, _) = stage.spawn_alien(draws);
    let mut sp = spawned.unwrap();
    assert_eq!(stage.aliens_magazine.get_left_num(), 0);
    assert_eq!(sp.pos, Vec3::new(2_500, 0, -27_000));

    // Advance the simulation; the world stops ticking a collected entity.
    let mut pos = sp.pos;
    let mut collect_notifications: u32 = 0;
    let mut ticks: u32 = 0;
    while collect_notifications == 0 {
        ticks += 1;
        assert!(ticks < 10_000, "the alien never left the arena");
        let (new_pos, collected) = sp.entity.physics_process(pos, 100);
        pos = new_pos;
        if collected {
            collect_notifications += 1;
        }
    }
    assert_eq!(collect_notifications, 1);
    assert!(!sp.entity.alive);
    // It left past the arena's far edge, straight down from where it spawned.
    assert!(pos.z > 28_000);
    assert_eq!(pos.x, 2_500);

    // The collect notification returns it to the pool: count up by one.
    stage.collect_alien(sp.entity);
    assert_eq!(stage.aliens_magazine.get_left_num(), 1);
}
