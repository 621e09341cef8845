use shooting_rst::barrage::barrage_plan;
use shooting_rst::vec3::{Vec3, rotate_xz_vec3, normalize};

fn forward() -> Vec3 {
    Vec3::new(0, 0, 1000)
}

#[test]
fn single_shot_patterns_fire_the_aim_direction() {
    for kind in 0..4i64 {
        let dirs = barrage_plan(kind, forward());
        assert_eq!(dirs.len(), 1);
        assert_eq!(dirs[0], forward());
    }
}

#[test]
fn three_way_fan_has_three_directions_first_is_input() {
    for kind in [4i64, 5] {
        let dirs = barrage_plan(kind, forward());
        assert_eq!(dirs.len(), 3);
        assert_eq!(dirs[0], forward());
        // The flanks sit at plus and minus sixty degrees.
        assert_eq!(dirs[1], Vec3::new(-866, 0, 500));
        assert_eq!(dirs[2], Vec3::new(866, 0, 500));
    }
}

#[test]
fn six_way_ring_spaced_sixty_degrees_sums_to_zero() {
    let dirs = barrage_plan(6, forward());
    assert_eq!(dirs.len(), 6);
    let expected = [
        Vec3::new(0, 0, 1000),
        Vec3::new(-866, 0, 500),
        Vec3::new(-866, 0, -500),
        Vec3::new(0, 0, -1000),
        Vec3::new(866, 0, -500),
        Vec3::new(866, 0, 500),
    ];
    let mut sum = Vec3::new(0, 0, 0);
    for (i, d) in dirs.iter().enumerate() {
        assert_eq!(*d, expected[i]);
        sum = Vec3::new(sum.x + d.x, sum.y + d.y, sum.z + d.z);
    }
    assert_eq!(sum, Vec3::new(0, 0, 0));
}

#[test]
fn pattern_index_wraps_around_the_table() {
    let dirs = barrage_plan(7, forward());
    assert_eq!(dirs.len(), 1);
    let dirs = barrage_plan(11, forward());
    assert_eq!(dirs.len(), 3);
}

#[test]
fn rotation_by_sixty_degrees_is_exact_on_axis() {
    let r = rotate_xz_vec3(forward(), 500, 866);
    assert_eq!(r, Vec3::new(-866, 0, 500));
}

#[test]
fn normalize_scales_to_unit_length() {
    assert_eq!(normalize(Vec3::new(1000, 0, 1000)), Some(Vec3::new(707, 0, 707)));
    assert_eq!(normalize(Vec3::new(0, 0, 5000)), Some(Vec3::new(0, 0, 1000)));
    assert_eq!(normalize(Vec3::new(0, 0, 0)), None);
}
