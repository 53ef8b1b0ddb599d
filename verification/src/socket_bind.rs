//! The decision on one bind attempt, from the address onwards.

use vstd::prelude::*;

use crate::alert::AlertSocketBind;
use crate::decision::{no_rules, verdict, DecisionEngine, Verdict};
use crate::evaluation::{lemma_evaluation_reaches_verdict, Evaluation, Query, Step};
use crate::policy::INODE_WILDCARD;
use crate::ports::PortRule;

verus! {

/// Address family of IPv4.
pub const AF_INET: u16 = 2;

/// The address that a bind names, as the kernel lays it out: the family,
/// then fourteen bytes whose meaning depends on the family. For IPv4 the
/// first two of them are the port, most significant byte first.
#[derive(Clone, Copy, Debug, PartialEq, Eq)]
pub struct SockAddr {
    pub sa_family: u16,
    pub sa_data: [u8; 14],
}

impl SockAddr {
    /// The port of an IPv4 address; `None` for every other family.
    pub open spec fn ipv4_port(&self) -> Option<u16> {
        if self.sa_family == AF_INET {
            Some((self.sa_data@[0] as int * 256 + self.sa_data@[1] as int) as u16)
        } else {
            None
        }
    }

    /// The port that the address names, if it is an IPv4 address.
    pub fn port(&self) -> (port: Option<u16>)
        ensures
            port == self.ipv4_port(),
    {
        if self.sa_family == AF_INET {
            let high: u16 = self.sa_data[0] as u16;
            let low: u16 = self.sa_data[1] as u16;
            Some(high * 256 + low)
        } else {
            None
        }
    }
}

/// What comes of one bind attempt: the value for the hook dispatcher and,
/// for a denied bind, the alert to publish.
#[derive(Clone, Copy, Debug, PartialEq, Eq)]
pub struct BindOutcome {
    /// Zero lets the bind proceed, minus one refuses it.
    pub ret: i32,
    /// The alert to publish; present exactly when the bind is refused.
    pub alert: Option<AlertSocketBind>,
}

impl BindOutcome {
    /// The outcome of a bind that goes ahead: nothing to report.
    pub open spec fn pass() -> BindOutcome {
        BindOutcome { ret: 0i32, alert: None }
    }

    /// The outcome that goes with the decision `v` on a bind to `port` by
    /// process `pid`, which runs the binary with inode `binprm_inode`: a
    /// denial comes with an alert that names all three, an allowed bind with
    /// none.
    pub open spec fn of(v: Verdict, pid: u32, binprm_inode: u64, port: u16) -> BindOutcome {
        BindOutcome {
            ret: v.retval(),
            alert: match v {
                Verdict::Allow => None,
                Verdict::Deny => Some(AlertSocketBind { pid, binprm_inode, port }),
            },
        }
    }

    /// Turns a decision into what the caller has to do about it: the value
    /// to return and, on denial, the alert to publish.
    pub fn new(v: Verdict, pid: u32, binprm_inode: u64, port: u16) -> (out: Self)
        ensures
            out == BindOutcome::of(v, pid, binprm_inode, port),
            out.alert is Some <==> v == Verdict::Deny,
    {
        let alert = match v {
            Verdict::Allow => None,
            Verdict::Deny => Some(AlertSocketBind::new(pid, binprm_inode, port)),
        };
        BindOutcome { ret: v.to_retval(), alert }
    }
}

/// The outcome of a bind to `addr` by process `pid`, which runs the binary
/// with inode `binprm_inode`.
///
/// An address of another family than IPv4 is let through without a look at
/// the tables. Otherwise the tables decide, with the binary as the subject.
pub open spec fn bind_outcome(
    allowed: Map<u64, PortRule>,
    denied: Map<u64, PortRule>,
    addr: SockAddr,
    pid: u32,
    binprm_inode: u64,
) -> BindOutcome {
    match addr.ipv4_port() {
        None => BindOutcome::pass(),
        Some(port) => BindOutcome::of(
            verdict(allowed, denied, binprm_inode, port),
            pid,
            binprm_inode,
            port,
        ),
    }
}

/// A bind attempt whose decision waits for a lookup.
#[derive(Clone, Copy, Debug, PartialEq, Eq, Structural)]
pub struct PendingBind {
    /// Process that attempts the bind.
    pub pid: u32,
    /// The decision in progress; its subject is the binary of the process.
    pub evaluation: Evaluation,
}

/// What is to be done next about a bind attempt.
#[derive(Clone, Copy, Debug, PartialEq, Eq)]
pub enum BindStep {
    /// Look up the rule that the pending bind asks for, and resume it with
    /// what was found.
    Lookup(PendingBind),
    /// Publish the alert, if there is one, and hand `ret` to the dispatcher.
    Done(BindOutcome),
}

impl PendingBind {
    /// The first step on a bind to `addr` by process `pid`, which runs the
    /// binary with inode `binprm_inode`: an address of another family than
    /// IPv4 is let through at once, an IPv4 address starts an evaluation of
    /// its port.
    pub open spec fn first(addr: SockAddr, pid: u32, binprm_inode: u64) -> BindStep {
        match addr.ipv4_port() {
            None => BindStep::Done(BindOutcome::pass()),
            Some(port) => BindStep::Lookup(
                PendingBind { pid, evaluation: Evaluation::start(binprm_inode, port) },
            ),
        }
    }

    /// What comes next once the lookup that the bind waits for has found
    /// `found`: the evaluation moves on, and where it ends, its verdict
    /// becomes the outcome.
    pub open spec fn step(self, found: Option<PortRule>) -> BindStep {
        match self.evaluation.step(found) {
            Step::Lookup(next) => BindStep::Lookup(PendingBind { pid: self.pid, evaluation: next }),
            Step::Done(v) => BindStep::Done(
                BindOutcome::of(v, self.pid, self.evaluation.subject, self.evaluation.port),
            ),
        }
    }

    /// Takes up a bind to `addr` by process `pid`, which runs the binary
    /// with inode `binprm_inode`.
    pub fn begin(addr: &SockAddr, pid: u32, binprm_inode: u64) -> (step: BindStep)
        ensures
            step == PendingBind::first(*addr, pid, binprm_inode),
    {
        match addr.port() {
            None => BindStep::Done(BindOutcome { ret: 0, alert: None }),
            Some(port) => BindStep::Lookup(
                PendingBind { pid, evaluation: Evaluation::new(binprm_inode, port) },
            ),
        }
    }

    /// The lookup to make before the bind can be resumed.
    pub fn next_query(&self) -> (query: Query)
        ensures
            query == self.evaluation.query(),
    {
        self.evaluation.next_query()
    }

    /// Resumes the bind with what the lookup found: `None` where the table
    /// holds no rule for the subject asked for.
    pub fn resume(self, found: Option<PortRule>) -> (step: BindStep)
        ensures
            step == self.step(found),
            step.lookups_left() < self.evaluation.lookups_left(),
    {
        match self.evaluation.resume(found) {
            Step::Lookup(next) => BindStep::Lookup(PendingBind { pid: self.pid, evaluation: next }),
            Step::Done(v) => BindStep::Done(
                BindOutcome::new(v, self.pid, self.evaluation.subject, self.evaluation.port),
            ),
        }
    }
}

impl BindStep {
    /// An upper bound on the lookups that are still needed.
    pub open spec fn lookups_left(self) -> nat {
        match self {
            BindStep::Lookup(pending) => pending.evaluation.lookups_left(),
            BindStep::Done(_) => 0,
        }
    }

    /// The outcome that the steps from here on end in when every lookup is
    /// answered from the same two tables.
    pub open spec fn outcome(
        self,
        allowed: Map<u64, PortRule>,
        denied: Map<u64, PortRule>,
    ) -> BindOutcome {
        match self {
            BindStep::Lookup(pending) => BindOutcome::of(
                pending.evaluation.outcome(allowed, denied),
                pending.pid,
                pending.evaluation.subject,
                pending.evaluation.port,
            ),
            BindStep::Done(out) => out,
        }
    }
}

/// Steps whose lookups are all answered from the same two tables end in the
/// outcome that the precedence algorithm gives on those tables.
pub proof fn lemma_steps_reach_outcome(
    allowed: Map<u64, PortRule>,
    denied: Map<u64, PortRule>,
    addr: SockAddr,
    pid: u32,
    binprm_inode: u64,
)
    ensures
        PendingBind::first(addr, pid, binprm_inode).outcome(allowed, denied) == bind_outcome(
            allowed,
            denied,
            addr,
            pid,
            binprm_inode,
        ),
{
    if let Some(port) = addr.ipv4_port() {
        lemma_evaluation_reaches_verdict(allowed, denied, binprm_inode, port);
    }
}

/// Decides whether the process `pid`, which runs the binary with inode
/// `binprm_inode`, may bind to `addr`, based on the allow and deny tables of
/// `engine`.
///
/// A denied bind comes back with the alert that reports it; publishing the
/// alert is left to the caller.
pub fn socket_bind(engine: &DecisionEngine, addr: &SockAddr, pid: u32, binprm_inode: u64) -> (out:
    BindOutcome)
    ensures
        out == bind_outcome(engine.allowed@, engine.denied@, *addr, pid, binprm_inode),
        out.ret == 0 || out.ret == -1,
        out.alert is Some <==> out.ret == -1,
{
    let mut step = PendingBind::begin(addr, pid, binprm_inode);
    proof {
        lemma_steps_reach_outcome(engine.allowed@, engine.denied@, *addr, pid, binprm_inode);
    }
    loop
        invariant
            step.outcome(engine.allowed@, engine.denied@) == bind_outcome(
                engine.allowed@,
                engine.denied@,
                *addr,
                pid,
                binprm_inode,
            ),
        decreases step.lookups_left(),
    {
        match step {
            BindStep::Done(out) => {
                return out;
            },
            BindStep::Lookup(pending) => {
                let found = engine.lookup(pending.next_query());
                step = pending.resume(found);
            },
        }
    }
}

/// A bind to an address of another family than IPv4 is allowed without an
/// alert, whatever the tables hold.
pub proof fn lemma_other_family_allowed(
    allowed: Map<u64, PortRule>,
    denied: Map<u64, PortRule>,
    addr: SockAddr,
    pid: u32,
    binprm_inode: u64,
)
    requires
        addr.sa_family != AF_INET,
    ensures
        bind_outcome(allowed, denied, addr, pid, binprm_inode) == (BindOutcome {
            ret: 0i32,
            alert: None,
        }),
{
}

/// With no rule in either table every bind is allowed, and no alert is
/// raised.
pub proof fn lemma_no_rules_no_alert(
    allowed: Map<u64, PortRule>,
    denied: Map<u64, PortRule>,
    addr: SockAddr,
    pid: u32,
    binprm_inode: u64,
)
    requires
        no_rules(allowed),
        no_rules(denied),
    ensures
        bind_outcome(allowed, denied, addr, pid, binprm_inode) == (BindOutcome {
            ret: 0i32,
            alert: None,
        }),
{
}

/// Under a wildcard deny rule for every port, with no allow rule at all,
/// every IPv4 bind is refused with one alert, which names the process, the
/// binary and the port of that bind.
pub proof fn lemma_deny_all_alerts(
    allowed: Map<u64, PortRule>,
    denied: Map<u64, PortRule>,
    addr: SockAddr,
    pid: u32,
    binprm_inode: u64,
)
    requires
        no_rules(allowed),
        denied.contains_key(INODE_WILDCARD),
        denied[INODE_WILDCARD].all,
        addr.sa_family == AF_INET,
    ensures
        bind_outcome(allowed, denied, addr, pid, binprm_inode) == (BindOutcome {
            ret: -1i32,
            alert: Some(
                AlertSocketBind { pid, binprm_inode, port: addr.ipv4_port()->Some_0 },
            ),
        }),
{
}

/// An alert is raised exactly for a denied bind, and it names the process,
/// the binary and the port of that bind.
pub proof fn lemma_alert_reports_denial(
    allowed: Map<u64, PortRule>,
    denied: Map<u64, PortRule>,
    addr: SockAddr,
    pid: u32,
    binprm_inode: u64,
)
    ensures
        ({
            let out = bind_outcome(allowed, denied, addr, pid, binprm_inode);
            let denial = addr.ipv4_port() matches Some(port) && verdict(
                allowed,
                denied,
                binprm_inode,
                port,
            ) == Verdict::Deny;
            &&& out.ret == if denial { -1i32 } else { 0i32 }
            &&& out.alert == if denial {
                Some(AlertSocketBind { pid, binprm_inode, port: addr.ipv4_port()->Some_0 })
            } else {
                None
            }
        }),
{
}

} // verus!
