//! One decision, cut into steps at every table lookup.
//!
//! The precedence algorithm needs up to six lookups, and which one comes
//! next depends on what the last one found. An [`Evaluation`] holds the
//! point that a decision has reached: it names the rule it needs next, and
//! resumed with what the lookup found it either ends in a verdict or moves
//! on to the next lookup. It performs no lookup itself, so a host whose
//! tables live elsewhere can drive it, one lookup at a time and in the order
//! that the algorithm asks for them.

use vstd::prelude::*;

use crate::decision::{verdict, Verdict};
use crate::policy::{rule_covers, rule_of, INODE_WILDCARD};
use crate::ports::PortRule;

verus! {

/// Names one of the two rule tables.
#[derive(Clone, Copy, Debug, PartialEq, Eq, Structural)]
pub enum Table {
    Allowed,
    Denied,
}

/// A lookup that an evaluation asks for: the rule of `subject` in `table`.
#[derive(Clone, Copy, Debug, PartialEq, Eq, Structural)]
pub struct Query {
    pub table: Table,
    pub subject: u64,
}

/// What the two tables answer to `query`.
pub open spec fn answer(
    query: Query,
    allowed: Map<u64, PortRule>,
    denied: Map<u64, PortRule>,
) -> Option<PortRule> {
    match query.table {
        Table::Allowed => rule_of(allowed, query.subject),
        Table::Denied => rule_of(denied, query.subject),
    }
}

/// The point that an evaluation has reached, named after the rule that is
/// looked up next. The stages are passed in the order they are listed in; an
/// evaluation never goes back.
#[derive(Clone, Copy, Debug, PartialEq, Eq, Structural)]
pub enum Stage {
    /// The wildcard's allow rule, at the start.
    AllowWildcard,
    /// The wildcard's deny rule, as an exception to a wildcard allow rule
    /// for every port.
    ExceptDenyWildcard,
    /// The subject's deny rule, as an exception to a wildcard allow rule for
    /// every port.
    ExceptDenySubject,
    /// The wildcard's deny rule, after the wildcard's allow rule has settled
    /// nothing.
    DenyWildcard,
    /// The wildcard's allow rule, as an exception to a wildcard deny rule
    /// for every port.
    ExceptAllowWildcard,
    /// The subject's allow rule, as an exception to a wildcard deny rule for
    /// every port.
    ExceptAllowSubject,
}

/// A decision in progress on a bind of `subject` to `port`.
#[derive(Clone, Copy, Debug, PartialEq, Eq, Structural)]
pub struct Evaluation {
    pub subject: u64,
    pub port: u16,
    pub stage: Stage,
}

/// What an evaluation yields when it is resumed.
#[derive(Clone, Copy, Debug, PartialEq, Eq, Structural)]
pub enum Step {
    /// Another rule is needed: look up what the evaluation asks for and
    /// resume it.
    Lookup(Evaluation),
    /// The decision is made.
    Done(Verdict),
}

impl Evaluation {
    /// The evaluation of a bind of `subject` to `port`, before any lookup.
    pub open spec fn start(subject: u64, port: u16) -> Evaluation {
        Evaluation { subject, port, stage: Stage::AllowWildcard }
    }

    /// The lookup that the evaluation waits for.
    pub open spec fn query(self) -> Query {
        match self.stage {
            Stage::AllowWildcard | Stage::ExceptAllowWildcard => Query {
                table: Table::Allowed,
                subject: INODE_WILDCARD,
            },
            Stage::ExceptAllowSubject => Query { table: Table::Allowed, subject: self.subject },
            Stage::DenyWildcard | Stage::ExceptDenyWildcard => Query {
                table: Table::Denied,
                subject: INODE_WILDCARD,
            },
            Stage::ExceptDenySubject => Query { table: Table::Denied, subject: self.subject },
        }
    }

    /// The same evaluation, moved on to `stage`.
    pub open spec fn at(self, stage: Stage) -> Step {
        Step::Lookup(Evaluation { stage, ..self })
    }

    /// What the evaluation yields once the lookup it waits for has found
    /// `found`.
    pub open spec fn step(self, found: Option<PortRule>) -> Step {
        match self.stage {
            Stage::AllowWildcard => match found {
                None => self.at(Stage::DenyWildcard),
                Some(rule) => if rule.all {
                    self.at(Stage::ExceptDenyWildcard)
                } else if rule.listed().contains(self.port) {
                    Step::Done(Verdict::Allow)
                } else {
                    self.at(Stage::DenyWildcard)
                },
            },
            Stage::ExceptDenyWildcard => if rule_covers(found, self.port) {
                Step::Done(Verdict::Deny)
            } else {
                self.at(Stage::ExceptDenySubject)
            },
            Stage::ExceptDenySubject => if rule_covers(found, self.port) {
                Step::Done(Verdict::Deny)
            } else {
                self.at(Stage::DenyWildcard)
            },
            Stage::DenyWildcard => match found {
                None => Step::Done(Verdict::Allow),
                Some(rule) => if rule.all {
                    self.at(Stage::ExceptAllowWildcard)
                } else if rule.listed().contains(self.port) {
                    Step::Done(Verdict::Deny)
                } else {
                    Step::Done(Verdict::Allow)
                },
            },
            Stage::ExceptAllowWildcard => if rule_covers(found, self.port) {
                Step::Done(Verdict::Allow)
            } else {
                self.at(Stage::ExceptAllowSubject)
            },
            Stage::ExceptAllowSubject => if rule_covers(found, self.port) {
                Step::Done(Verdict::Allow)
            } else {
                Step::Done(Verdict::Deny)
            },
        }
    }

    /// An upper bound on the lookups that the evaluation still needs.
    pub open spec fn lookups_left(self) -> nat {
        match self.stage {
            Stage::AllowWildcard => 6,
            Stage::ExceptDenyWildcard => 5,
            Stage::ExceptDenySubject => 4,
            Stage::DenyWildcard => 3,
            Stage::ExceptAllowWildcard => 2,
            Stage::ExceptAllowSubject => 1,
        }
    }

    /// The verdict that the evaluation ends in when every lookup from here
    /// on is answered from the same two tables.
    pub open spec fn outcome(self, allowed: Map<u64, PortRule>, denied: Map<u64, PortRule>) -> Verdict
        decreases self.lookups_left(),
    {
        match self.step(answer(self.query(), allowed, denied)) {
            Step::Done(v) => v,
            Step::Lookup(next) => next.outcome(allowed, denied),
        }
    }

    /// Begins the evaluation of a bind of `subject` to `port`.
    pub fn new(subject: u64, port: u16) -> (evaluation: Self)
        ensures
            evaluation == Evaluation::start(subject, port),
    {
        Evaluation { subject, port, stage: Stage::AllowWildcard }
    }

    /// The lookup to make before the evaluation can be resumed.
    pub fn next_query(&self) -> (query: Query)
        ensures
            query == self.query(),
    {
        match self.stage {
            Stage::AllowWildcard | Stage::ExceptAllowWildcard => Query {
                table: Table::Allowed,
                subject: INODE_WILDCARD,
            },
            Stage::ExceptAllowSubject => Query { table: Table::Allowed, subject: self.subject },
            Stage::DenyWildcard | Stage::ExceptDenyWildcard => Query {
                table: Table::Denied,
                subject: INODE_WILDCARD,
            },
            Stage::ExceptDenySubject => Query { table: Table::Denied, subject: self.subject },
        }
    }

    /// Asks for the lookup of `stage` next.
    fn move_to(self, stage: Stage) -> (step: Step)
        ensures
            step == self.at(stage),
    {
        Step::Lookup(Evaluation { subject: self.subject, port: self.port, stage })
    }

    /// Resumes the evaluation with what the lookup found: `None` where the
    /// table holds no rule for the subject asked for.
    ///
    /// Every step that asks for another lookup leaves fewer lookups to make,
    /// so an evaluation ends after six lookups at most.
    pub fn resume(self, found: Option<PortRule>) -> (step: Step)
        ensures
            step == self.step(found),
            step matches Step::Lookup(next) ==> next.subject == self.subject && next.port
                == self.port && next.lookups_left() < self.lookups_left(),
    {
        let hit = match found {
            Some(rule) => rule.matches(self.port),
            None => false,
        };
        match self.stage {
            Stage::AllowWildcard => match found {
                None => self.move_to(Stage::DenyWildcard),
                Some(rule) => if rule.all {
                    self.move_to(Stage::ExceptDenyWildcard)
                } else if hit {
                    Step::Done(Verdict::Allow)
                } else {
                    self.move_to(Stage::DenyWildcard)
                },
            },
            Stage::ExceptDenyWildcard => if hit {
                Step::Done(Verdict::Deny)
            } else {
                self.move_to(Stage::ExceptDenySubject)
            },
            Stage::ExceptDenySubject => if hit {
                Step::Done(Verdict::Deny)
            } else {
                self.move_to(Stage::DenyWildcard)
            },
            Stage::DenyWildcard => match found {
                None => Step::Done(Verdict::Allow),
                Some(rule) => if rule.all {
                    self.move_to(Stage::ExceptAllowWildcard)
                } else if hit {
                    Step::Done(Verdict::Deny)
                } else {
                    Step::Done(Verdict::Allow)
                },
            },
            Stage::ExceptAllowWildcard => if hit {
                Step::Done(Verdict::Allow)
            } else {
                self.move_to(Stage::ExceptAllowSubject)
            },
            Stage::ExceptAllowSubject => if hit {
                Step::Done(Verdict::Allow)
            } else {
                Step::Done(Verdict::Deny)
            },
        }
    }
}

/// An evaluation whose lookups are all answered from the same two tables
/// ends in the verdict of the precedence algorithm on those tables.
pub proof fn lemma_evaluation_reaches_verdict(
    allowed: Map<u64, PortRule>,
    denied: Map<u64, PortRule>,
    subject: u64,
    port: u16,
)
    ensures
        Evaluation::start(subject, port).outcome(allowed, denied) == verdict(
            allowed,
            denied,
            subject,
            port,
        ),
{
    reveal_with_fuel(Evaluation::outcome, 7);
}

} // verus!
