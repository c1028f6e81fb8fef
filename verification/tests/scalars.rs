use touch_engine::device::message::ArgType;
use touch_engine::device::routing::RoutingTable;
use touch_engine::device::scalar::Scalar;

#[test]
fn scalar_from_whole_number() {
    assert_eq!(Scalar::from_int(5).micros, 5_000_000);
    assert_eq!(Scalar::from_int(-3).micros, -3_000_000);
    assert_eq!(Scalar::from_int(i32::MAX).micros, 2_147_483_647_000_000);
    assert_eq!(Scalar::from_int(i32::MIN).micros, -2_147_483_648_000_000);
}

#[test]
fn scalar_index_is_never_negative() {
    assert_eq!(Scalar { micros: 7_500_000 }.to_index(), 7);
    assert_eq!(Scalar { micros: 7_999_999 }.to_index(), 7);
    assert_eq!(Scalar { micros: -999_999 }.to_index(), 0);
    assert_eq!(Scalar { micros: -7_500_000 }.to_index(), 0);
    assert_eq!(Scalar { micros: 0 }.to_index(), 0);
    assert_eq!(Scalar { micros: i64::MAX }.to_index(), 9_223_372_036_854);
}

#[test]
fn argument_as_quantity() {
    assert_eq!(ArgType::IType(3).to_scalar(), Scalar { micros: 3_000_000 });
    assert_eq!(ArgType::FType(Scalar { micros: 42 }).to_scalar(), Scalar { micros: 42 });
    assert_eq!(Scalar::from(ArgType::IType(-2)), Scalar { micros: -2_000_000 });
}

#[test]
fn routing_table_lookup() {
    let table = RoutingTable::new(vec![vec![0, 1], vec![2], vec![]]);
    assert!(table.contains(0, 1));
    assert!(table.contains(1, 0));
    assert!(!table.contains(1, 1));
    assert!(!table.contains(2, 0));
    assert!(!table.contains(3, 0));
    assert_eq!(table.lookup(0, 0), None);
    assert_eq!(table.lookup(0, 1), Some(1));
    assert_eq!(table.lookup(1, 0), Some(2));
}

#[test]
fn routing_table_slots_within_limit() {
    let table = RoutingTable::new(vec![vec![0, 1], vec![2], vec![]]);
    assert!(table.within(2));
    assert!(table.within(3));
    assert!(!table.within(1));
    assert!(RoutingTable::new(vec![]).within(0));
}
