//! Errors of the GDB-stub front end. The stub itself is a thin protocol
//! translator around the sandbox's debug extension point and lives with
//! the process that owns the TCP listener.

use vstd::prelude::*;

verus! {

/// Errors that can occur while bringing up the GDB protocol handler.
#[derive(Debug, Clone, Copy, PartialEq, Eq, Structural)]
pub enum GdbTargetError {
    /// Binding the listening socket failed.
    BindError,
    /// Accepting a connection failed.
    ListenerError,
    /// Spawning the handler thread failed.
    SpawnThreadError,
}

} // verus!
