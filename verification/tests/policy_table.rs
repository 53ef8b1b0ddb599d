use guardity_ebpf::policy::{PolicyTable, INODE_WILDCARD};
use guardity_ebpf::ports::{PortRule, MAX_PORTS};

fn single(port: u16) -> PortRule {
    let mut entries = [0u16; MAX_PORTS];
    entries[0] = port;
    PortRule { all: false, len: 1, ports: entries }
}

#[test]
fn wildcard_is_inode_zero() {
    assert_eq!(INODE_WILDCARD, 0);
}

#[test]
fn new_table_has_no_rules() {
    let table = PolicyTable::new();
    assert!(table.get(INODE_WILDCARD).is_none());
    assert!(table.get(1).is_none());
    assert!(table.get(u64::MAX).is_none());
}

#[test]
fn insert_then_get_returns_rule() {
    let mut table = PolicyTable::new();
    assert!(table.insert(42, single(22)).is_none());
    let rule = table.get(42).unwrap();
    assert!(!rule.all);
    assert_eq!(rule.len, 1);
    assert_eq!(rule.ports[0], 22);
    assert_eq!(table.get(42), Some(single(22)));
    assert!(table.get(43).is_none());
    assert!(table.get(INODE_WILDCARD).is_none());
}

#[test]
fn insert_replaces_and_returns_previous() {
    let mut table = PolicyTable::new();
    assert!(table.insert(42, single(22)).is_none());
    let previous = table.insert(42, single(80)).unwrap();
    assert_eq!(previous.ports[0], 22);
    assert_eq!(table.get(42).unwrap().ports[0], 80);
}

#[test]
fn remove_returns_rule_and_forgets_it() {
    let mut table = PolicyTable::new();
    table.insert(42, single(22));
    table.insert(43, single(80));
    let removed = table.remove(42).unwrap();
    assert_eq!(removed.ports[0], 22);
    assert!(table.get(42).is_none());
    assert_eq!(table.get(43).unwrap().ports[0], 80);
    assert!(table.remove(42).is_none());
}
