use cgroup_skb_egress::blocklist::{BlocklistTable, MapAccessError};
use cgroup_skb_egress::codec::{ipv4_from_octets, EbpfAtomicI64};

#[test]
fn insert_then_lookup_returns_entry() {
    let mut table = BlocklistTable::new(16);
    let key = ipv4_from_octets(1, 1, 1, 1);
    table.insert(key, EbpfAtomicI64::default(), 0).unwrap();
    let got = table.lookup(key).unwrap();
    assert_eq!(got, EbpfAtomicI64 { value: 0, zero: 0 });
}

#[test]
fn lookup_of_absent_key_is_not_found() {
    let mut table = BlocklistTable::new(16);
    let key = ipv4_from_octets(1, 1, 1, 1);
    table.insert(key, EbpfAtomicI64::default(), 0).unwrap();
    let other = ipv4_from_octets(8, 8, 8, 8);
    assert_eq!(table.lookup(other).unwrap_err(), MapAccessError::NotFound);
}

#[test]
fn insert_replaces_in_place() {
    let mut table = BlocklistTable::new(1);
    let key = ipv4_from_octets(10, 0, 0, 1);
    table.insert(key, EbpfAtomicI64::default(), 0).unwrap();
    // The table is full, but an update of a present key still succeeds.
    table
        .insert(key, EbpfAtomicI64 { value: 7, zero: 0 }, 0)
        .unwrap();
    assert_eq!(table.lookup(key).unwrap(), EbpfAtomicI64 { value: 7, zero: 0 });
    assert_eq!(table.len(), 1);
}

#[test]
fn fresh_key_on_full_table_is_rejected() {
    let mut table = BlocklistTable::new(1);
    let first = ipv4_from_octets(1, 1, 1, 1);
    let second = ipv4_from_octets(8, 8, 8, 8);
    table.insert(first, EbpfAtomicI64::default(), 0).unwrap();
    let err = table.insert(second, EbpfAtomicI64::default(), 0).unwrap_err();
    assert_eq!(err, MapAccessError::CapacityExhausted);
    // The failed insert left the table unchanged.
    assert_eq!(table.len(), 1);
    assert!(table.lookup(second).is_err());
    assert!(table.lookup(first).is_ok());
}

#[test]
fn remove_deletes_the_entry() {
    let mut table = BlocklistTable::new(4);
    let key = ipv4_from_octets(1, 1, 1, 1);
    table.insert(key, EbpfAtomicI64::default(), 0).unwrap();
    table.remove(key).unwrap();
    assert_eq!(table.lookup(key).unwrap_err(), MapAccessError::NotFound);
    assert_eq!(table.len(), 0);
}

#[test]
fn remove_of_absent_key_is_not_found() {
    let mut table = BlocklistTable::new(4);
    let key = ipv4_from_octets(1, 1, 1, 1);
    assert_eq!(table.remove(key).unwrap_err(), MapAccessError::NotFound);
}

#[test]
fn seed_scenario() {
    // Seed 1.1.1.1 with a zeroed entry, as startup does after attaching.
    let mut table = BlocklistTable::new(1024);
    let deny = ipv4_from_octets(1, 1, 1, 1);
    table.insert(deny, EbpfAtomicI64::default(), 0).unwrap();
    assert_eq!(
        table.lookup(deny).unwrap(),
        EbpfAtomicI64 { value: 0, zero: 0 }
    );
    let never_inserted = ipv4_from_octets(8, 8, 8, 8);
    assert_eq!(
        table.lookup(never_inserted).unwrap_err(),
        MapAccessError::NotFound
    );
}
