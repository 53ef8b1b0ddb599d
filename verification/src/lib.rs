//! Mandatory access control for socket binds.
//!
//! A bind attempt is authorized against two rule tables, one of allow rules
//! and one of deny rules. Each table maps a subject (the inode of the binary
//! that attempts the bind) to a [`ports::PortRule`]; the reserved subject
//! [`policy::INODE_WILDCARD`] stands for every binary.
//!
//! - [`ports`]: a rule and the test whether it applies to a port.
//! - [`policy`]: a rule table held in memory.
//! - [`decision`]: the precedence of the rules, and the engine that decides
//!   over two tables in memory.
//! - [`evaluation`]: the same decision as a sequence of steps, for a host
//!   that makes the lookups itself.
//! - [`socket_bind`]: the whole way from the address of a bind to the value
//!   for the hook and the alert on a denial.
//! - [`alert`]: the record of a denied bind.
//!
//! Nothing here reads a kernel structure or publishes an alert: the caller
//! hands in what it has read and gets back what it has to do.

pub mod alert;
pub mod decision;
pub mod evaluation;
pub mod policy;
pub mod ports;
pub mod socket_bind;
