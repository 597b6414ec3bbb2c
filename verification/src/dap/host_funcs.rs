//! The debug-break extension point: the host function guests call to
//! report debug events and receive the debugger's next command.
//!
//! The per-request decision — which reply goes to the server and which
//! action goes back to the guest — is a pure function with an exact
//! contract; the surrounding loop only moves messages over the channel.

use vstd::prelude::*;
use vstd::std_specs::convert::FromSpec;
use vstd::string::StringExecFns;

use super::comm::DapCommChannel;
use super::messages::{Breakpoint, DapRequest, DapResponse, Scope, SourceLocation, StackFrame,
    StopReason, clone_opt_string};

verus! {

/// Debug event sent from guest to host when execution stops.
#[derive(Debug, Clone)]
pub struct DebugBreakEvent {
    /// Reason for the debug break.
    pub reason: DebugBreakReason,
    /// Current source location.
    pub location: DebugLocation,
    /// Current call stack, if available.
    pub stack_frames: Vec<DebugStackFrame>,
    /// Optional exception message, when the reason is an exception.
    pub exception_message: Option<String>,
}

/// Reason why the guest stopped execution.
#[derive(Debug, Clone, Copy, PartialEq, Eq, Structural)]
pub enum DebugBreakReason {
    /// Program entry point.
    Entry,
    /// Hit a breakpoint.
    Breakpoint,
    /// Completed a step operation.
    Step,
    /// Paused by request.
    Pause,
    /// Exception occurred.
    Exception,
}

impl From<DebugBreakReason> for StopReason {
    fn from(reason: DebugBreakReason) -> (r: StopReason) {
        match reason {
            DebugBreakReason::Entry => StopReason::Entry,
            DebugBreakReason::Breakpoint => StopReason::Breakpoint,
            DebugBreakReason::Step => StopReason::Step,
            DebugBreakReason::Pause => StopReason::Pause,
            DebugBreakReason::Exception => StopReason::Exception,
        }
    }
}

impl vstd::std_specs::convert::FromSpecImpl<DebugBreakReason> for StopReason {
    open spec fn obeys_from_spec() -> bool {
        true
    }

    open spec fn from_spec(reason: DebugBreakReason) -> StopReason {
        match reason {
            DebugBreakReason::Entry => StopReason::Entry,
            DebugBreakReason::Breakpoint => StopReason::Breakpoint,
            DebugBreakReason::Step => StopReason::Step,
            DebugBreakReason::Pause => StopReason::Pause,
            DebugBreakReason::Exception => StopReason::Exception,
        }
    }
}

/// Source location information from the guest.
#[derive(Debug, Clone)]
pub struct DebugLocation {
    /// Source file path or name.
    pub filename: String,
    /// Function name, if available.
    pub function_name: Option<String>,
    /// Line number, 1-based.
    pub line: u32,
    /// Column number, 1-based, if available.
    pub column: Option<u32>,
}

impl From<DebugLocation> for SourceLocation {
    fn from(loc: DebugLocation) -> (r: SourceLocation) {
        SourceLocation {
            filename: loc.filename,
            function_name: loc.function_name,
            line: loc.line,
            column: loc.column,
        }
    }
}

impl vstd::std_specs::convert::FromSpecImpl<DebugLocation> for SourceLocation {
    open spec fn obeys_from_spec() -> bool {
        true
    }

    open spec fn from_spec(loc: DebugLocation) -> SourceLocation {
        SourceLocation {
            filename: loc.filename,
            function_name: loc.function_name,
            line: loc.line,
            column: loc.column,
        }
    }
}

/// Stack frame information from the guest.
#[derive(Debug, Clone)]
pub struct DebugStackFrame {
    /// Frame id, assigned by the guest.
    pub id: u32,
    /// Function name.
    pub name: String,
    /// Source location.
    pub location: DebugLocation,
}

impl From<DebugStackFrame> for StackFrame {
    fn from(frame: DebugStackFrame) -> (r: StackFrame) {
        StackFrame {
            id: frame.id,
            name: frame.name,
            location: SourceLocation::from(frame.location),
        }
    }
}

impl vstd::std_specs::convert::FromSpecImpl<DebugStackFrame> for StackFrame {
    open spec fn obeys_from_spec() -> bool {
        true
    }

    open spec fn from_spec(frame: DebugStackFrame) -> StackFrame {
        StackFrame {
            id: frame.id,
            name: frame.name,
            location: <SourceLocation as vstd::std_specs::convert::FromSpec<DebugLocation>>::from_spec(frame.location),
        }
    }
}

/// Debug action returned from host to guest once the debugger decides.
#[derive(Debug, Clone)]
pub struct DebugAction {
    /// The action the guest should take.
    pub action: DebugActionType,
    /// Updated breakpoints, if any were set while stopped.
    pub breakpoints: Vec<DebugBreakpoint>,
}

/// Type of debug action for the guest to perform.
#[derive(Debug, Clone, Copy, PartialEq, Eq, Structural)]
pub enum DebugActionType {
    /// Continue execution normally.
    Continue,
    /// Step to next statement, over calls.
    StepOver,
    /// Step into function calls.
    StepInto,
    /// Step out of the current function.
    StepOut,
    /// Disconnect the debugger; continue without debugging.
    Disconnect,
}

/// Breakpoint information sent from host to guest.
#[derive(Debug, Clone)]
pub struct DebugBreakpoint {
    /// Unique breakpoint id.
    pub id: u32,
    /// Source file.
    pub filename: String,
    /// Line number.
    pub line: u32,
    /// Whether the breakpoint is enabled.
    pub enabled: bool,
}

/// How many debugger commands one stop will serve before giving up and
/// resuming the guest; a session that is still stopped after this many
/// commands is treated like a failed channel.
pub const MAX_DEBUG_COMMANDS_PER_STOP: u64 = 0x1000_0000;

/// The variables reference handed out for the locals scope of a frame:
/// the frame id offset by 1000, wrapping around the 32-bit range.
pub open spec fn scope_variables_reference(frame_id: u32) -> u32 {
    if frame_id + 1000 <= u32::MAX {
        (frame_id + 1000) as u32
    } else {
        (frame_id + 1000 - 0x1_0000_0000) as u32
    }
}

/// Decide on one debugger request received while the guest is stopped:
/// the reply to send to the server, and, for resume commands, the action
/// that ends the stop. `SetBreakpoints` accumulates into `breakpoints`,
/// which is what the guest receives when the stop ends; the other
/// requests leave it alone.
pub fn process_request(
    event: &DebugBreakEvent,
    breakpoints: &mut Vec<DebugBreakpoint>,
    request: DapRequest,
) -> (r: (Option<DapResponse>, Option<DebugActionType>))
    ensures
        !(request matches DapRequest::SetBreakpoints { .. }) ==> final(breakpoints)@ == old(
            breakpoints,
        )@,
        request is Continue ==> r == (
            Some(DapResponse::Continued),
            Some(DebugActionType::Continue),
        ),
        request is Next ==> r == (Some(DapResponse::Continued), Some(DebugActionType::StepOver)),
        request is StepIn ==> r == (Some(DapResponse::Continued), Some(DebugActionType::StepInto)),
        request is StepOut ==> r == (Some(DapResponse::Continued), Some(DebugActionType::StepOut)),
        request matches DapRequest::Disconnect { .. } ==> r == (
            Some(DapResponse::Disconnected),
            Some(DebugActionType::Disconnect),
        ),
        request matches DapRequest::SetBreakpoints { source_path, lines } ==> {
            &&& r.1 is None
            &&& final(breakpoints)@.len() == old(breakpoints)@.len() + lines@.len()
            &&& forall|j: int|
                0 <= j < old(breakpoints)@.len() ==> final(breakpoints)@[j] == old(breakpoints)@[j]
            &&& forall|k: int|
                0 <= k < lines@.len() ==> #[trigger] final(breakpoints)@[old(breakpoints)@.len()
                    + k] == (DebugBreakpoint {
                    id: k as u32,
                    filename: source_path,
                    line: lines@[k],
                    enabled: true,
                })
            &&& (r.0 matches Some(resp) && resp matches DapResponse::BreakpointsSet {
                breakpoints: reply,
            } && reply@.len() == final(breakpoints)@.len() && forall|j: int|
                0 <= j < reply@.len() ==> {
                    let sent = #[trigger] reply@[j];
                    &&& sent.id == final(breakpoints)@[j].id
                    &&& sent.verified == true
                    &&& sent.line == final(breakpoints)@[j].line
                    &&& sent.message is None
                })
        },
        request matches DapRequest::StackTrace { .. } ==> {
            &&& r.1 is None
            &&& (r.0 matches Some(resp) && resp matches DapResponse::StackTrace {
                frames,
                total_frames,
            } && frames@.len() == event.stack_frames@.len() && total_frames
                == event.stack_frames@.len() as u32 && forall|j: int|
                0 <= j < frames@.len() ==> #[trigger] frames@[j] == StackFrame::from_spec(
                    event.stack_frames@[j],
                ))
        },
        request matches DapRequest::Scopes { frame_id } ==> {
            &&& r.1 is None
            &&& (r.0 matches Some(resp) && resp matches DapResponse::Scopes { scopes }
                && scopes@.len() == 1 && scopes@[0].name@ == "Locals"@
                && scopes@[0].variables_reference == scope_variables_reference(frame_id)
                && scopes@[0].expensive == false)
        },
        request matches DapRequest::Variables { .. } ==> {
            &&& r.1 is None
            &&& (r.0 matches Some(resp) && resp matches DapResponse::Variables { variables }
                && variables@.len() == 0)
        },
        request matches DapRequest::Evaluate { expression, .. } ==> {
            &&& r.1 is None
            &&& (r.0 matches Some(resp) && resp matches DapResponse::Evaluate {
                result,
                value_type,
                variables_reference,
            } && result@ == "(evaluation not implemented: "@ + expression@ + ")"@
                && (value_type matches Some(t) && t@ == "string"@) && variables_reference == 0)
        },
        request is Initialize || request is ConfigurationDone || request is Pause || (request
            matches DapRequest::SetFunctionBreakpoints { .. }) ==> r == (
            None::<DapResponse>,
            None::<DebugActionType>,
        ),
{
    match request {
        DapRequest::Continue => (Some(DapResponse::Continued), Some(DebugActionType::Continue)),
        DapRequest::Next => (Some(DapResponse::Continued), Some(DebugActionType::StepOver)),
        DapRequest::StepIn => (Some(DapResponse::Continued), Some(DebugActionType::StepInto)),
        DapRequest::StepOut => (Some(DapResponse::Continued), Some(DebugActionType::StepOut)),
        DapRequest::Disconnect { .. } => (
            Some(DapResponse::Disconnected),
            Some(DebugActionType::Disconnect),
        ),
        DapRequest::SetBreakpoints { source_path, lines } => {
            let ghost base = breakpoints@.len() as int;
            let mut i: usize = 0;
            while i < lines.len()
                invariant
                    0 <= base,
                    i <= lines@.len(),
                    breakpoints@.len() == base + i,
                    forall|j: int| 0 <= j < base ==> breakpoints@[j] == old(breakpoints)@[j],
                    forall|k: int|
                        0 <= k < i ==> #[trigger] breakpoints@[base + k] == (DebugBreakpoint {
                            id: k as u32,
                            filename: source_path,
                            line: lines@[k],
                            enabled: true,
                        }),
                decreases lines@.len() - i,
            {
                breakpoints.push(
                    DebugBreakpoint {
                        id: i as u32,
                        filename: source_path.clone(),
                        line: lines[i],
                        enabled: true,
                    },
                );
                i = i + 1;
            }
            let mut reply: Vec<Breakpoint> = Vec::new();
            let mut j: usize = 0;
            while j < breakpoints.len()
                invariant
                    j <= breakpoints@.len(),
                    reply@.len() == j,
                    forall|k: int|
                        0 <= k < j ==> {
                            let sent = #[trigger] reply@[k];
                            &&& sent.id == breakpoints@[k].id
                            &&& sent.verified == true
                            &&& sent.line == breakpoints@[k].line
                            &&& sent.message is None
                        },
                decreases breakpoints@.len() - j,
            {
                reply.push(
                    Breakpoint {
                        id: breakpoints[j].id,
                        verified: true,
                        line: breakpoints[j].line,
                        message: None,
                    },
                );
                j = j + 1;
            }
            (Some(DapResponse::BreakpointsSet { breakpoints: reply }), None)
        },
        DapRequest::StackTrace { .. } => {
            let mut frames: Vec<StackFrame> = Vec::new();
            let mut j: usize = 0;
            while j < event.stack_frames.len()
                invariant
                    j <= event.stack_frames@.len(),
                    frames@.len() == j,
                    forall|k: int|
                        0 <= k < j ==> #[trigger] frames@[k] == StackFrame::from_spec(
                            event.stack_frames@[k],
                        ),
                decreases event.stack_frames@.len() - j,
            {
                let src = &event.stack_frames[j];
                frames.push(
                    StackFrame {
                        id: src.id,
                        name: src.name.clone(),
                        location: SourceLocation {
                            filename: src.location.filename.clone(),
                            function_name: clone_opt_string(&src.location.function_name),
                            line: src.location.line,
                            column: src.location.column,
                        },
                    },
                );
                j = j + 1;
            }
            let total: u32 = frames.len() as u32;
            (Some(DapResponse::StackTrace { frames, total_frames: total }), None)
        },
        DapRequest::Scopes { frame_id } => {
            let reference: u32 = if frame_id <= u32::MAX - 1000 {
                frame_id + 1000
            } else {
                frame_id - (u32::MAX - 1000) - 1
            };
            let scopes = vec![
                Scope {
                    name: "Locals".to_owned(),
                    variables_reference: reference,
                    expensive: false,
                },
            ];
            (Some(DapResponse::Scopes { scopes }), None)
        },
        DapRequest::Variables { .. } => (
            Some(DapResponse::Variables { variables: Vec::new() }),
            None,
        ),
        DapRequest::Evaluate { expression, .. } => {
            let mut result: String = "(evaluation not implemented: ".to_owned();
            result.append(expression.as_str());
            result.append(")");
            (
                Some(
                    DapResponse::Evaluate {
                        result,
                        value_type: Some("string".to_owned()),
                        variables_reference: 0,
                    },
                ),
                None,
            )
        },
        DapRequest::SetFunctionBreakpoints { .. } => (None, None),
        DapRequest::Initialize => (None, None),
        DapRequest::ConfigurationDone => (None, None),
        DapRequest::Pause => (None, None),
    }
}

/// The stopped event reported to the server when the guest breaks: the
/// break's reason and location, no hit-breakpoint ids, and the break's
/// exception text, exactly.
pub fn stopped_response(event: &DebugBreakEvent) -> (r: DapResponse)
    ensures
        r matches DapResponse::Stopped { reason, location, hit_breakpoint_ids, exception_text }
            && reason == <StopReason as vstd::std_specs::convert::FromSpec<
            DebugBreakReason,
        >>::from_spec(event.reason) && location == <SourceLocation as
            vstd::std_specs::convert::FromSpec<DebugLocation>>::from_spec(event.location)
            && hit_breakpoint_ids is None && exception_text == event.exception_message,
{
    DapResponse::Stopped {
        reason: StopReason::from(event.reason),
        location: SourceLocation {
            filename: event.location.filename.clone(),
            function_name: clone_opt_string(&event.location.function_name),
            line: event.location.line,
            column: event.location.column,
        },
        hit_breakpoint_ids: None,
        exception_text: clone_opt_string(&event.exception_message),
    }
}

/// Handle a debug break reported by the guest: send the stopped event
/// built by `stopped_response` to the DAP server, then serve debugger
/// commands until one of them resumes the guest, and return that
/// command's action together with whatever breakpoints were set while
/// stopped.
///
/// What comes over the channel depends on the debugger, so the result
/// cannot be pinned to one command; what holds of every outcome is that
/// each breakpoint handed back to the guest was set enabled, since
/// `process_request` creates no other kind. Every reply sent while
/// stopped follows `process_request`'s contract. When the channel fails,
/// or a debugger floods one stop with more commands than the service
/// budget below, the guest is told to continue rather than left hanging.
pub fn handle_debug_break(
    channel: &DapCommChannel<DapResponse, DapRequest>,
    event: DebugBreakEvent,
) -> (action: DebugAction)
    ensures
        forall|i: int|
            0 <= i < action.breakpoints@.len() ==> (#[trigger] action.breakpoints@[i]).enabled,
{
    if channel.send(stopped_response(&event)).is_err() {
        return DebugAction { action: DebugActionType::Continue, breakpoints: Vec::new() };
    }

    let mut breakpoints: Vec<DebugBreakpoint> = Vec::new();
    let mut remaining: u64 = MAX_DEBUG_COMMANDS_PER_STOP;
    while remaining > 0
        invariant
            forall|i: int|
                0 <= i < breakpoints@.len() ==> (#[trigger] breakpoints@[i]).enabled,
        decreases remaining,
    {
        remaining = remaining - 1;
        match channel.recv() {
            Ok(request) => {
                let ghost before = breakpoints@;
                let (reply, decided) = process_request(&event, &mut breakpoints, request);
                proof {
                    assert forall|i: int| 0 <= i < breakpoints@.len() implies (
                    #[trigger] breakpoints@[i]).enabled by {
                        if i < before.len() {
                            assert(breakpoints@[i] == before[i]);
                        } else {
                            assert(breakpoints@[before.len() + (i - before.len())].enabled);
                        }
                    }
                }
                if let Some(response) = reply {
                    let _ = channel.send(response);
                }
                if let Some(action) = decided {
                    return DebugAction { action, breakpoints };
                }
            },
            Err(_) => {
                return DebugAction { action: DebugActionType::Continue, breakpoints };
            },
        }
    }
    DebugAction { action: DebugActionType::Continue, breakpoints }
}

} // verus!
