//! Port rules and the predicate that matches a port against one rule.

use vstd::prelude::*;

verus! {

/// Capacity of the port list of one rule.
pub const MAX_PORTS: usize = 32;

/// One entry of a rule table: either every port, or an explicit list.
///
/// `len` is the declared length of the list. It is not trusted: only the
/// first `min(len, MAX_PORTS)` entries of `ports` are ever consulted, so a
/// declared length beyond the capacity is the same as a full list.
#[derive(Clone, Copy, Debug, PartialEq, Eq)]
pub struct PortRule {
    /// The rule applies to every port, whatever the list holds.
    pub all: bool,
    /// Declared number of meaningful entries in `ports`.
    pub len: usize,
    /// The listed ports; entries from `len` on are ignored.
    pub ports: [u16; MAX_PORTS],
}

impl PortRule {
    /// Number of list entries that are consulted.
    pub open spec fn scanned(&self) -> nat {
        if self.len < MAX_PORTS {
            self.len as nat
        } else {
            MAX_PORTS as nat
        }
    }

    /// The consulted prefix of the port list.
    pub open spec fn listed(&self) -> Seq<u16> {
        self.ports@.take(self.scanned() as int)
    }

    /// Whether the rule applies to `port`.
    pub open spec fn covers(&self, port: u16) -> bool {
        self.all || self.listed().contains(port)
    }

    /// Whether `port` is among the consulted entries of the list, regardless
    /// of the `all` flag.
    pub fn lists(&self, port: u16) -> (found: bool)
        ensures
            found == self.listed().contains(port),
    {
        let n: usize = if self.len < MAX_PORTS {
            self.len
        } else {
            MAX_PORTS
        };
        let mut i: usize = 0;
        while i < n
            invariant
                i <= n,
                n == self.scanned(),
                n <= MAX_PORTS,
                forall|j: int| 0 <= j < i ==> self.listed()[j] != port,
            decreases n - i,
        {
            if self.ports[i] == port {
                assert(self.listed()[i as int] == port);
                return true;
            }
            i += 1;
        }
        false
    }

    /// Whether the rule applies to `port`: unconditionally if `all` is set,
    /// otherwise if the port is listed.
    pub fn matches(&self, port: u16) -> (hit: bool)
        ensures
            hit == self.covers(port),
    {
        self.all || self.lists(port)
    }
}

/// Membership in the consulted prefix, entry by entry: a port is listed
/// exactly if it stands at an index below both the declared length and the
/// capacity. No entry at or beyond either bound can make a rule match.
pub proof fn lemma_listed_by_index(rule: PortRule, port: u16)
    ensures
        rule.listed().contains(port) <==> exists|i: int|
            0 <= i < rule.len && i < MAX_PORTS && #[trigger] rule.ports@[i] == port,
        rule.covers(port) <==> rule.all || exists|i: int|
            0 <= i < rule.len && i < MAX_PORTS && #[trigger] rule.ports@[i] == port,
{
    let listed = rule.listed();
    if listed.contains(port) {
        let i = choose|i: int| 0 <= i < listed.len() && listed[i] == port;
        assert(rule.ports@[i] == port);
    }
    if exists|i: int| 0 <= i < rule.len && i < MAX_PORTS && #[trigger] rule.ports@[i] == port {
        let i = choose|i: int|
            0 <= i < rule.len && i < MAX_PORTS && #[trigger] rule.ports@[i] == port;
        assert(listed[i] == port);
    }
}

/// A declared length beyond the capacity reads as a full list: whatever the
/// excess, the rule matches the same ports.
pub proof fn lemma_declared_length_capped(rule: PortRule, port: u16)
    requires
        rule.len >= MAX_PORTS,
    ensures
        rule.covers(port) == (PortRule { len: MAX_PORTS, ..rule }).covers(port),
        rule.covers(port) <==> rule.all || rule.ports@.contains(port),
{
    assert(rule.listed() =~= rule.ports@);
}

/// Two rules that agree on the flag and on the consulted entries match the
/// same ports: what stands in the list from the declared length on is
/// ignored.
pub proof fn lemma_unlisted_entries_ignored(a: PortRule, b: PortRule, port: u16)
    requires
        a.all == b.all,
        a.scanned() == b.scanned(),
        forall|i: int| 0 <= i < a.scanned() ==> a.ports@[i] == b.ports@[i],
    ensures
        a.covers(port) == b.covers(port),
{
    assert(a.listed() =~= b.listed());
}

} // verus!
