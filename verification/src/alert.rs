//! The record that reports a denied bind.

use vstd::prelude::*;

verus! {

/// Describes one denied bind attempt. It is built at the moment of denial and
/// handed to whoever publishes it; the engine keeps no reference to it.
#[derive(Clone, Copy, Debug, PartialEq, Eq, Structural)]
pub struct AlertSocketBind {
    /// Process that attempted the bind.
    pub pid: u32,
    /// Inode of the binary that the process runs.
    pub binprm_inode: u64,
    /// Port that the process tried to bind to.
    pub port: u16,
}

impl AlertSocketBind {
    /// The alert on a bind to `port` that was denied to process `pid`, which
    /// runs the binary with inode `binprm_inode`.
    pub fn new(pid: u32, binprm_inode: u64, port: u16) -> (alert: Self)
        ensures
            alert == (AlertSocketBind { pid, binprm_inode, port }),
    {
        AlertSocketBind { pid, binprm_inode, port }
    }
}

} // verus!
