use radarpub::cluster_ids::ClusterIds;

#[test]
fn same_track_same_id() {
    let mut ids = ClusterIds::new();
    let a = ids.id_for(0xAAAA);
    let b = ids.id_for(0xBBBB);
    assert_eq!((a, b), (1, 2));
    for _ in 0..5 {
        assert_eq!(ids.id_for(0xAAAA), a);
        assert_eq!(ids.id_for(0xBBBB), b);
    }
    assert_eq!(ids.max_id, 2);
    assert_eq!(ids.get(0xCCCC), None);
}

#[test]
fn freed_id_is_reused_first() {
    let mut ids = ClusterIds::new();
    let a = ids.id_for(1);
    let b = ids.id_for(2);
    let c = ids.id_for(3);
    assert_eq!((a, b, c), (1, 2, 3));
    ids.release_missing(&vec![1]);
    assert_eq!(ids.free, vec![2, 3]);
    assert_eq!(ids.get(2), None);
    assert_eq!(ids.id_for(4), 3);
    assert_eq!(ids.id_for(5), 2);
    assert_eq!(ids.id_for(6), 4);
    assert_eq!(ids.max_id, 4);
    assert_eq!(ids.get(1), Some(1));
}

#[test]
fn ids_start_at_one() {
    let mut ids = ClusterIds::new();
    assert_eq!(ids.id_for(42), 1);
    ids.release_missing(&vec![]);
    assert_eq!(ids.free, vec![1]);
    assert_eq!(ids.id_for(43), 1);
    assert_eq!(ids.max_id, 1);
}
