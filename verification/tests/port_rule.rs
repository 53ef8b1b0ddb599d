use guardity_ebpf::ports::{PortRule, MAX_PORTS};

fn list(ports: &[u16]) -> PortRule {
    let mut entries = [0u16; MAX_PORTS];
    for (slot, port) in entries.iter_mut().zip(ports.iter()) {
        *slot = *port;
    }
    PortRule { all: false, len: ports.len(), ports: entries }
}

#[test]
fn capacity_is_thirty_two() {
    assert_eq!(MAX_PORTS, 32);
}

#[test]
fn all_flag_matches_every_port() {
    let rule = PortRule { all: true, len: 0, ports: [0u16; MAX_PORTS] };
    assert!(rule.matches(0));
    assert!(rule.matches(22));
    assert!(rule.matches(65535));
}

#[test]
fn all_flag_wins_over_list_contents() {
    let mut rule = list(&[80, 443]);
    rule.all = true;
    assert!(rule.matches(22));
    assert!(rule.matches(80));
    // The list itself is unchanged by the flag.
    assert!(rule.lists(80));
    assert!(!rule.lists(22));
}

#[test]
fn list_matches_listed_ports_only() {
    let rule = list(&[22, 80, 443]);
    assert!(rule.matches(22));
    assert!(rule.matches(80));
    assert!(rule.matches(443));
    assert!(!rule.matches(8080));
    assert!(!rule.matches(0));
}

#[test]
fn empty_list_matches_nothing() {
    let rule = list(&[]);
    assert!(!rule.matches(0));
    assert!(!rule.matches(22));
    // Even with the whole array filled, a declared length of zero reads nothing.
    let filled = PortRule { all: false, len: 0, ports: [22u16; MAX_PORTS] };
    assert!(!filled.matches(22));
}

#[test]
fn entries_from_declared_length_on_are_ignored() {
    let mut rule = list(&[22, 80]);
    rule.ports[2] = 443;
    rule.ports[31] = 8080;
    assert!(rule.matches(80));
    assert!(!rule.matches(443));
    assert!(!rule.matches(8080));
    // The padding value zero sits beyond the declared length too.
    assert!(!rule.matches(0));
    rule.len = 3;
    assert!(rule.matches(443));
    assert!(!rule.matches(8080));
}

#[test]
fn last_slot_is_read_when_list_is_full() {
    let mut entries = [1u16; MAX_PORTS];
    entries[31] = 9000;
    let rule = PortRule { all: false, len: 32, ports: entries };
    assert!(rule.matches(9000));
    assert!(rule.matches(1));
    assert!(!rule.matches(2));
    let shorter = PortRule { all: false, len: 31, ports: entries };
    assert!(!shorter.matches(9000));
}

#[test]
fn declared_length_beyond_capacity_reads_full_list() {
    let mut entries = [0u16; MAX_PORTS];
    let mut i: usize = 0;
    while i < MAX_PORTS {
        entries[i] = 1000 + i as u16;
        i += 1;
    }
    let rule = PortRule { all: false, len: 40, ports: entries };
    // Every populated entry matches.
    let mut i: usize = 0;
    while i < MAX_PORTS {
        assert!(rule.matches(1000 + i as u16));
        i += 1;
    }
    // What would sit at index 35 of a longer list is never read.
    assert!(!rule.matches(1035));
    assert!(!rule.matches(1032));
    assert!(!rule.matches(1039));
    // The excess of the declared length makes no difference.
    let full = PortRule { all: false, len: 32, ports: entries };
    let huge = PortRule { all: false, len: usize::MAX, ports: entries };
    let mut port: u32 = 0;
    while port <= 65535 {
        let p: u16 = port as u16;
        assert_eq!(rule.matches(p), full.matches(p));
        assert_eq!(huge.matches(p), full.matches(p));
        port += 1;
    }
}

#[test]
fn matches_is_flag_or_listed() {
    let rule = list(&[53]);
    assert_eq!(rule.matches(53), rule.all || rule.lists(53));
    assert_eq!(rule.matches(54), rule.all || rule.lists(54));
    let mut flagged = rule;
    flagged.all = true;
    assert_eq!(flagged.matches(54), flagged.all || flagged.lists(54));
}
