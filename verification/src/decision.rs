//! The precedence algorithm that turns the two rule tables into a verdict.
//!
//! Rules exist at two scopes, the wildcard and the single subject, in two
//! tables, allow and deny. The wildcard rules set the posture; a rule of a
//! single subject only ever acts as an exception to the opposite wildcard
//! posture when that posture covers every port. Used alone, without such a
//! wildcard rule in the other table, a per-subject rule has no effect.

use vstd::prelude::*;

use crate::evaluation::{
    answer, lemma_evaluation_reaches_verdict, Evaluation, Query, Step, Table,
};
use crate::policy::{rule_of, table_covers, PolicyTable, INODE_WILDCARD};
use crate::ports::PortRule;

verus! {

/// Outcome of one evaluation.
#[derive(Clone, Copy, Debug, PartialEq, Eq, Structural)]
pub enum Verdict {
    Allow,
    Deny,
}

impl Verdict {
    /// The value handed back to the hook dispatcher: zero lets the bind
    /// proceed, minus one refuses it.
    pub open spec fn retval(self) -> i32 {
        match self {
            Verdict::Allow => 0i32,
            Verdict::Deny => -1i32,
        }
    }

    /// The dispatcher value of this verdict.
    pub fn to_retval(self) -> (ret: i32)
        ensures
            ret == self.retval(),
    {
        match self {
            Verdict::Allow => 0,
            Verdict::Deny => -1,
        }
    }
}

/// First phase: precedence of the wildcard allow rule. `None` means that the
/// phase reached no decision and the second phase decides.
///
/// A wildcard allow rule for every port is overridden by a deny rule that
/// covers the port, first the wildcard's, then the subject's. A wildcard
/// allow list allows the ports it lists at once.
pub open spec fn wildcard_allow_phase(
    allowed: Map<u64, PortRule>,
    denied: Map<u64, PortRule>,
    subject: u64,
    port: u16,
) -> Option<Verdict> {
    if !allowed.contains_key(INODE_WILDCARD) {
        None
    } else if allowed[INODE_WILDCARD].all {
        if table_covers(denied, INODE_WILDCARD, port) || table_covers(denied, subject, port) {
            Some(Verdict::Deny)
        } else {
            None
        }
    } else if allowed[INODE_WILDCARD].listed().contains(port) {
        Some(Verdict::Allow)
    } else {
        None
    }
}

/// Second phase: precedence of the wildcard deny rule. Without one the bind
/// is allowed.
///
/// A wildcard deny rule for every port is overridden by an allow rule that
/// covers the port, first the wildcard's, then the subject's. A wildcard deny
/// list denies the ports it lists and no others.
pub open spec fn wildcard_deny_phase(
    allowed: Map<u64, PortRule>,
    denied: Map<u64, PortRule>,
    subject: u64,
    port: u16,
) -> Verdict {
    if !denied.contains_key(INODE_WILDCARD) {
        Verdict::Allow
    } else if denied[INODE_WILDCARD].all {
        if table_covers(allowed, INODE_WILDCARD, port) || table_covers(allowed, subject, port) {
            Verdict::Allow
        } else {
            Verdict::Deny
        }
    } else if denied[INODE_WILDCARD].listed().contains(port) {
        Verdict::Deny
    } else {
        Verdict::Allow
    }
}

/// The verdict on a bind of `subject` to `port` under the two tables: that of
/// the first phase if it reaches one, else that of the second.
pub open spec fn verdict(
    allowed: Map<u64, PortRule>,
    denied: Map<u64, PortRule>,
    subject: u64,
    port: u16,
) -> Verdict {
    match wildcard_allow_phase(allowed, denied, subject, port) {
        Some(v) => v,
        None => wildcard_deny_phase(allowed, denied, subject, port),
    }
}

/// The two rule tables that a bind attempt is judged by.
pub struct DecisionEngine {
    pub allowed: PolicyTable,
    pub denied: PolicyTable,
}

impl DecisionEngine {
    /// An engine over the given tables.
    pub fn new(allowed: PolicyTable, denied: PolicyTable) -> (engine: Self)
        ensures
            engine.allowed == allowed,
            engine.denied == denied,
    {
        DecisionEngine { allowed, denied }
    }

    /// Makes the lookup that `query` asks for.
    pub fn lookup(&self, query: Query) -> (found: Option<PortRule>)
        ensures
            found == answer(query, self.allowed@, self.denied@),
    {
        match query.table {
            Table::Allowed => self.allowed.get(query.subject),
            Table::Denied => self.denied.get(query.subject),
        }
    }

    /// Decides whether `subject` may bind to `port`. The tables are only
    /// read, one rule at a time and in the order that the evaluation asks
    /// for them.
    pub fn decide(&self, subject: u64, port: u16) -> (v: Verdict)
        ensures
            v == verdict(self.allowed@, self.denied@, subject, port),
    {
        let mut evaluation = Evaluation::new(subject, port);
        proof {
            lemma_evaluation_reaches_verdict(self.allowed@, self.denied@, subject, port);
        }
        loop
            invariant
                evaluation.outcome(self.allowed@, self.denied@) == verdict(
                    self.allowed@,
                    self.denied@,
                    subject,
                    port,
                ),
            decreases evaluation.lookups_left(),
        {
            let found = self.lookup(evaluation.next_query());
            match evaluation.resume(found) {
                Step::Done(v) => {
                    return v;
                },
                Step::Lookup(next) => {
                    evaluation = next;
                },
            }
        }
    }
}

/// Whether `table` holds no rule at all.
pub open spec fn no_rules(table: Map<u64, PortRule>) -> bool {
    forall|subject: u64| !table.contains_key(subject)
}

/// Whether `table` holds a rule for `subject` and for no one else.
pub open spec fn sole_rule(table: Map<u64, PortRule>, subject: u64) -> bool {
    forall|other: u64| table.contains_key(other) <==> other == subject
}

/// With no rule in either table every bind is allowed.
pub proof fn lemma_no_rules_allow(
    allowed: Map<u64, PortRule>,
    denied: Map<u64, PortRule>,
    subject: u64,
    port: u16,
)
    requires
        no_rules(allowed),
        no_rules(denied),
    ensures
        verdict(allowed, denied, subject, port) == Verdict::Allow,
{
}

/// Without a wildcard rule in either table every bind is allowed, whatever
/// rules the single subjects have.
pub proof fn lemma_no_wildcard_rules_allow(
    allowed: Map<u64, PortRule>,
    denied: Map<u64, PortRule>,
    subject: u64,
    port: u16,
)
    requires
        !allowed.contains_key(INODE_WILDCARD),
        !denied.contains_key(INODE_WILDCARD),
    ensures
        verdict(allowed, denied, subject, port) == Verdict::Allow,
{
}

/// A wildcard deny rule for every port, with no allow rule at all, denies
/// every bind.
pub proof fn lemma_deny_all_without_allow_rules(
    allowed: Map<u64, PortRule>,
    denied: Map<u64, PortRule>,
    subject: u64,
    port: u16,
)
    requires
        no_rules(allowed),
        denied.contains_key(INODE_WILDCARD),
        denied[INODE_WILDCARD].all,
    ensures
        verdict(allowed, denied, subject, port) == Verdict::Deny,
{
}

/// Under a wildcard deny rule for every port, a lone allow rule for every
/// port of one subject exempts that subject and nobody else.
pub proof fn lemma_subject_exempt_from_deny_all(
    allowed: Map<u64, PortRule>,
    denied: Map<u64, PortRule>,
    subject: u64,
    other: u64,
    port: u16,
)
    requires
        denied.contains_key(INODE_WILDCARD),
        denied[INODE_WILDCARD].all,
        subject != INODE_WILDCARD,
        sole_rule(allowed, subject),
        allowed[subject].all,
        other != subject,
    ensures
        verdict(allowed, denied, subject, port) == Verdict::Allow,
        verdict(allowed, denied, other, port) == Verdict::Deny,
{
}

/// Under a wildcard allow rule for every port, a lone wildcard deny list
/// denies the ports it lists and no others.
pub proof fn lemma_deny_list_under_allow_all(
    allowed: Map<u64, PortRule>,
    denied: Map<u64, PortRule>,
    subject: u64,
    port: u16,
)
    requires
        allowed.contains_key(INODE_WILDCARD),
        allowed[INODE_WILDCARD].all,
        sole_rule(denied, INODE_WILDCARD),
        !denied[INODE_WILDCARD].all,
    ensures
        verdict(allowed, denied, subject, port) == if denied[INODE_WILDCARD].listed().contains(
            port,
        ) {
            Verdict::Deny
        } else {
            Verdict::Allow
        },
{
}

/// A lone deny rule for every port of one subject, with no wildcard rule in
/// either table, denies nothing.
pub proof fn lemma_lone_subject_deny_allows(
    allowed: Map<u64, PortRule>,
    denied: Map<u64, PortRule>,
    subject: u64,
    port: u16,
)
    requires
        subject != INODE_WILDCARD,
        no_rules(allowed),
        sole_rule(denied, subject),
        denied[subject].all,
    ensures
        verdict(allowed, denied, subject, port) == Verdict::Allow,
{
}

/// The deny rule of a single subject counts only under a wildcard allow rule
/// for every port: without one, the verdict is the same with the subject's
/// deny rule taken away.
pub proof fn lemma_subject_deny_needs_allow_all(
    allowed: Map<u64, PortRule>,
    denied: Map<u64, PortRule>,
    subject: u64,
    port: u16,
)
    requires
        subject != INODE_WILDCARD,
        !(allowed.contains_key(INODE_WILDCARD) && allowed[INODE_WILDCARD].all),
    ensures
        verdict(allowed, denied, subject, port) == verdict(
            allowed,
            denied.remove(subject),
            subject,
            port,
        ),
{
}

/// The allow rule of a single subject counts only under a wildcard deny rule
/// for every port: without one, the verdict is the same with the subject's
/// allow rule taken away.
pub proof fn lemma_subject_allow_needs_deny_all(
    allowed: Map<u64, PortRule>,
    denied: Map<u64, PortRule>,
    subject: u64,
    port: u16,
)
    requires
        subject != INODE_WILDCARD,
        !(denied.contains_key(INODE_WILDCARD) && denied[INODE_WILDCARD].all),
    ensures
        verdict(allowed, denied, subject, port) == verdict(
            allowed.remove(subject),
            denied,
            subject,
            port,
        ),
{
}

/// Exactly when a bind is denied. Under a wildcard allow rule for every
/// port, a deny rule of the wildcard or of the subject that covers the port
/// denies it. Otherwise the wildcard's deny rule has to cover the port, the
/// wildcard's allow list must not list it, and where that deny rule is for
/// every port the subject's allow rule must not cover it either.
pub proof fn lemma_denied_exactly_when(
    allowed: Map<u64, PortRule>,
    denied: Map<u64, PortRule>,
    subject: u64,
    port: u16,
)
    ensures
        verdict(allowed, denied, subject, port) == Verdict::Deny <==> if allowed.contains_key(
            INODE_WILDCARD,
        ) && allowed[INODE_WILDCARD].all {
            table_covers(denied, INODE_WILDCARD, port) || table_covers(denied, subject, port)
        } else {
            &&& !table_covers(allowed, INODE_WILDCARD, port)
            &&& table_covers(denied, INODE_WILDCARD, port)
            &&& !(denied[INODE_WILDCARD].all && table_covers(allowed, subject, port))
        },
{
}

/// The verdict on a subject rests on the rules of the wildcard and of that
/// subject alone: tables that agree on these two give the same verdict.
pub proof fn lemma_verdict_reads_two_scopes(
    allowed: Map<u64, PortRule>,
    denied: Map<u64, PortRule>,
    other_allowed: Map<u64, PortRule>,
    other_denied: Map<u64, PortRule>,
    subject: u64,
    port: u16,
)
    requires
        rule_of(allowed, INODE_WILDCARD) == rule_of(other_allowed, INODE_WILDCARD),
        rule_of(allowed, subject) == rule_of(other_allowed, subject),
        rule_of(denied, INODE_WILDCARD) == rule_of(other_denied, INODE_WILDCARD),
        rule_of(denied, subject) == rule_of(other_denied, subject),
    ensures
        verdict(allowed, denied, subject, port) == verdict(
            other_allowed,
            other_denied,
            subject,
            port,
        ),
{
}

} // verus!
