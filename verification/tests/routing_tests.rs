use beep_sfu::routing::RoutingTable;

#[test]
fn port_range_is_ascending_and_complete() {
    let table = RoutingTable::from_range(3478, 3481);
    assert_eq!(table.len(), 4);
    assert_eq!(table.port_at(0), 3478);
    assert_eq!(table.port_at(1), 3479);
    assert_eq!(table.port_at(2), 3480);
    assert_eq!(table.port_at(3), 3481);
    assert!(!table.is_empty());
}

#[test]
fn single_port_range() {
    let table = RoutingTable::from_range(4000, 4000);
    assert_eq!(table.len(), 1);
    assert_eq!(table.port_at(0), 4000);
}

#[test]
fn inverted_range_is_empty() {
    let table = RoutingTable::from_range(10, 9);
    assert_eq!(table.len(), 0);
    assert!(table.is_empty());
    assert_eq!(table.port_for_session(7), None);
}

#[test]
fn unordered_ports_are_sorted_and_deduplicated() {
    let table = RoutingTable::from_ports(&vec![3481, 3478, 3479, 3478, 3481]);
    assert_eq!(table.len(), 3);
    assert_eq!(table.port_at(0), 3478);
    assert_eq!(table.port_at(1), 3479);
    assert_eq!(table.port_at(2), 3481);
    assert_eq!(table.port_for_session(4), Some(3479));
    assert_eq!(RoutingTable::from_ports(&Vec::new()).len(), 0);
}

#[test]
fn sharding_is_deterministic() {
    let table = RoutingTable::from_range(3478, 3481);
    let first = table.port_for_session(42);
    for _ in 0..100 {
        assert_eq!(table.port_for_session(42), first);
    }
}

#[test]
fn sharding_indexes_by_residue() {
    let table = RoutingTable::from_range(3478, 3479);
    assert_eq!(table.port_for_session(4), Some(3478));
    assert_eq!(table.port_for_session(5), Some(3479));
    assert_eq!(table.port_for_session(u64::MAX), Some(3479));
}

#[test]
fn distinct_residues_use_distinct_ports() {
    let table = RoutingTable::from_range(3478, 3479);
    let a = table.port_for_session(6).unwrap();
    let b = table.port_for_session(9).unwrap();
    assert_ne!(a, b);
}

#[test]
fn chosen_port_is_always_configured() {
    let table = RoutingTable::from_range(5000, 5002);
    for session in 0..50u64 {
        let port = table.port_for_session(session).unwrap();
        assert!((5000..=5002).contains(&port));
    }
}
