use shooting_rst::magazine::Magazine;

#[test]
fn create_full_pool_counts_every_slot() {
    let slots: Vec<Option<u64>> = vec![Some(1), Some(2), Some(3), Some(4), Some(5)];
    let m = Magazine::new(slots);
    assert_eq!(m.get_left_num(), 5);
}

#[test]
fn create_empty_pool() {
    let slots: Vec<Option<u64>> = Vec::new();
    let m = Magazine::new(slots);
    assert_eq!(m.get_left_num(), 0);
}

#[test]
fn create_skips_factory_failures() {
    let slots: Vec<Option<u64>> = vec![Some(10), None, Some(20), None, None, Some(30)];
    let mut m = Magazine::new(slots);
    assert_eq!(m.get_left_num(), 3);
    assert_eq!(m.hammer(), Some(10));
    assert_eq!(m.hammer(), Some(20));
    assert_eq!(m.hammer(), Some(30));
}

#[test]
fn acquire_is_fifo() {
    let mut m = Magazine::new(vec![Some(1u64), Some(2), Some(3)]);
    assert_eq!(m.hammer(), Some(1));
    m.charge_bullet(1);
    assert_eq!(m.hammer(), Some(2));
    assert_eq!(m.hammer(), Some(3));
    assert_eq!(m.hammer(), Some(1));
}

#[test]
fn acquire_all_then_release_all_restores_count() {
    let n: usize = 7;
    let slots: Vec<Option<u64>> = (0..n as u64).map(Some).collect();
    let mut m = Magazine::new(slots);
    assert_eq!(m.get_left_num(), n);
    let mut borrowed: Vec<u64> = Vec::new();
    for _ in 0..n {
        borrowed.push(m.hammer().unwrap());
    }
    assert_eq!(m.get_left_num(), 0);
    for b in borrowed {
        m.charge_bullet(b);
    }
    assert_eq!(m.get_left_num(), n);
    // The order comes back round too: FIFO reuse is deterministic.
    for expected in 0..n as u64 {
        assert_eq!(m.hammer(), Some(expected));
    }
}

#[test]
fn empty_pool_reports_none_repeatedly() {
    let mut m = Magazine::<u64>::new(Vec::new());
    assert_eq!(m.hammer(), None);
    assert_eq!(m.hammer(), None);
    assert_eq!(m.hammer(), None);
    assert_eq!(m.get_left_num(), 0);
}

#[test]
fn close_drains_every_free_entity() {
    let mut m = Magazine::new(vec![Some(4u64), Some(5), Some(6)]);
    let freed = m.close();
    assert_eq!(freed, vec![4, 5, 6]);
    assert_eq!(m.get_left_num(), 0);
    assert_eq!(m.hammer(), None);
}
