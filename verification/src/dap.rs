//! Debug-adapter front end: the message channel between the server
//! thread and the sandbox, the debug-break extension point the guest
//! calls into, and the protocol decision logic of the server itself.

pub mod comm;
pub mod context;
pub mod errors;
pub mod host_funcs;
pub mod messages;
pub mod protocol;
pub mod session;

pub use comm::DapCommChannel;
pub use errors::DapError;
pub use messages::{
    Breakpoint, DapRequest, DapResponse, Scope, SourceLocation, StackFrame, StopReason, Variable,
};
