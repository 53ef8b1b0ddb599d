//! Rule tables: a mapping from subject to port rule.

use std::collections::HashMap;
use vstd::prelude::*;

use crate::ports::PortRule;

verus! {

/// The reserved subject that stands for every binary. No file has inode
/// number zero, so it is distinct from every real subject.
pub const INODE_WILDCARD: u64 = 0;

/// A table of rules keyed by subject. A subject without an entry has no rule
/// at that scope; that is an ordinary state, not an error.
pub struct PolicyTable {
    rules: HashMap<u64, PortRule>,
}

impl View for PolicyTable {
    type V = Map<u64, PortRule>;

    closed spec fn view(&self) -> Map<u64, PortRule> {
        self.rules@
    }
}

/// The rule that `table` holds for `subject`, if any.
pub open spec fn rule_of(table: Map<u64, PortRule>, subject: u64) -> Option<PortRule> {
    if table.contains_key(subject) {
        Some(table[subject])
    } else {
        None
    }
}

/// Whether a looked-up rule is present and applies to `port`.
pub open spec fn rule_covers(rule: Option<PortRule>, port: u16) -> bool {
    rule matches Some(r) && r.covers(port)
}

/// Whether `table` holds a rule for `subject` that applies to `port`.
pub open spec fn table_covers(table: Map<u64, PortRule>, subject: u64, port: u16) -> bool {
    rule_covers(rule_of(table, subject), port)
}

impl PolicyTable {
    /// A table without rules.
    pub fn new() -> (table: Self)
        ensures
            table@ == Map::<u64, PortRule>::empty(),
    {
        PolicyTable { rules: HashMap::new() }
    }

    /// Sets the rule of `subject`, and returns the rule it replaces.
    pub fn insert(&mut self, subject: u64, rule: PortRule) -> (previous: Option<PortRule>)
        ensures
            final(self)@ == old(self)@.insert(subject, rule),
            previous == rule_of(old(self)@, subject),
    {
        self.rules.insert(subject, rule)
    }

    /// Removes the rule of `subject`, and returns it if there was one.
    pub fn remove(&mut self, subject: u64) -> (previous: Option<PortRule>)
        ensures
            final(self)@ == old(self)@.remove(subject),
            previous == rule_of(old(self)@, subject),
    {
        self.rules.remove(&subject)
    }

    /// The rule of `subject`, if the table holds one.
    pub fn get(&self, subject: u64) -> (rule: Option<PortRule>)
        ensures
            rule == rule_of(self@, subject),
    {
        match self.rules.get(&subject) {
            Some(rule) => Some(*rule),
            None => None,
        }
    }
}

} // verus!
