//! Core of a hypervisor-backed micro-VM sandbox: the backend-independent
//! register model, the guest-memory snapshot/restore store, the OutB
//! port-trap protocol through which the guest requests host services, and
//! the guest-side tracing state machine.

use vstd::prelude::*;

pub mod arch;
pub mod dap;
pub mod dispatch;
pub mod gdb;
pub mod guest_log;
pub mod mem;
pub mod outb;
pub mod structured_log;
pub mod trace_frames;
pub mod trace_state;

verus! {

/// Errors raised by the sandbox core: decode failures on the OutB trap
/// protocol and bounds failures on the shared-memory store.
#[derive(Debug, Clone, PartialEq, Eq, Structural)]
pub enum CoreError {
    /// An OutB action code outside the recognized set.
    InvalidOutBActionCode(u16),
    /// An Abort payload byte outside the recognized exception codes.
    UnknownExceptionCode(u8),
    /// A backing-store allocation request of zero bytes or beyond the
    /// address space.
    InvalidMemorySize {
        /// The number of bytes that was requested.
        requested: usize,
    },
    /// A VM exit that is not an I/O port write handed to the OutB
    /// dispatcher.
    UnexpectedVmExit,
    /// A trace batch entry of the wrong kind handed to the log renderer.
    UnexpectedTraceEvent,
    /// A guest-relative access below the mapped base or past the end of
    /// the mapped memory.
    InvalidGuestAddress {
        /// The guest-physical address of the access.
        guest_address: u64,
        /// The length of the access in bytes.
        len: usize,
    },
    /// A restore requested before any snapshot was captured.
    NoSnapshotTaken,
    /// A copy into the backing store that would run past its end.
    OutOfBounds {
        /// Offset at which the copy was to start.
        offset: usize,
        /// Number of bytes to copy.
        len: usize,
        /// Size of the backing store.
        size: usize,
    },
}

} // verus!

