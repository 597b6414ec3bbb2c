//! Internal message types for debug-adapter communication between the
//! server thread and the sandbox-owning thread.

use vstd::prelude::*;
use vstd::string::StringExecFns;

verus! {

/// Source location information reported by the guest runtime: a position
/// in the source of the interpreted program running in the guest.
#[derive(Debug, Clone)]
pub struct SourceLocation {
    /// The source file path or name.
    pub filename: String,
    /// The function name at this location, if available.
    pub function_name: Option<String>,
    /// Line number, 1-based.
    pub line: u32,
    /// Column number, 1-based, if available.
    pub column: Option<u32>,
}

impl SourceLocation {
    /// Creates a new source location with the given filename and line.
    pub fn new(filename: &str, line: u32) -> (r: SourceLocation)
        ensures
            r.filename@ == filename@,
            r.function_name is None,
            r.line == line,
            r.column is None,
    {
        SourceLocation { filename: filename.to_owned(), function_name: None, line, column: None }
    }

    /// Sets the function name for this location.
    pub fn with_function(self, function_name: &str) -> (r: SourceLocation)
        ensures
            r.filename == self.filename,
            r.function_name matches Some(f) && f@ == function_name@,
            r.line == self.line,
            r.column == self.column,
    {
        SourceLocation { function_name: Some(function_name.to_owned()), ..self }
    }

    /// Sets the column number for this location.
    pub fn with_column(self, column: u32) -> (r: SourceLocation)
        ensures
            r.filename == self.filename,
            r.function_name == self.function_name,
            r.line == self.line,
            r.column == Some(column),
    {
        SourceLocation { column: Some(column), ..self }
    }
}

/// Clone an optional string, preserving its value exactly.
pub(crate) fn clone_opt_string(s: &Option<String>) -> (r: Option<String>)
    ensures
        r == *s,
{
    match s {
        Some(v) => Some(v.clone()),
        None => None,
    }
}

/// A stack frame in the guest's call stack.
#[derive(Debug, Clone)]
pub struct StackFrame {
    /// Unique identifier for this frame.
    pub id: u32,
    /// Name of the frame, typically the function name.
    pub name: String,
    /// Source location of this frame.
    pub location: SourceLocation,
}

/// A breakpoint that has been set.
#[derive(Debug, Clone)]
pub struct Breakpoint {
    /// Unique identifier for this breakpoint.
    pub id: u32,
    /// Whether the breakpoint was successfully set.
    pub verified: bool,
    /// The line where the breakpoint was set, which may differ from the
    /// requested line.
    pub line: u32,
    /// Optional message, such as why the breakpoint could not be verified.
    pub message: Option<String>,
}

/// A scope of variables, such as locals or globals.
#[derive(Debug, Clone)]
pub struct Scope {
    /// Display name of the scope.
    pub name: String,
    /// Reference id for fetching variables in this scope.
    pub variables_reference: u32,
    /// Whether this scope's contents are expensive to retrieve.
    pub expensive: bool,
}

/// A variable or property.
#[derive(Debug, Clone)]
pub struct Variable {
    /// Display name of the variable.
    pub name: String,
    /// Value as a string representation.
    pub value: String,
    /// Type of the variable, if known.
    pub value_type: Option<String>,
    /// Reference id if this variable has children, 0 otherwise.
    pub variables_reference: u32,
}

/// Reason why execution stopped.
#[derive(Debug, Clone, Copy, PartialEq, Eq, Structural)]
pub enum StopReason {
    /// Stopped at entry point.
    Entry,
    /// Hit a breakpoint.
    Breakpoint,
    /// Completed a step operation.
    Step,
    /// Paused by user request.
    Pause,
    /// Exception or error occurred.
    Exception,
    /// Data breakpoint hit.
    DataBreakpoint,
    /// Function breakpoint hit.
    FunctionBreakpoint,
}

impl StopReason {
    /// The protocol string for this stop reason.
    pub open spec fn as_str_spec(&self) -> Seq<char> {
        match self {
            StopReason::Entry => "entry"@,
            StopReason::Breakpoint => "breakpoint"@,
            StopReason::Step => "step"@,
            StopReason::Pause => "pause"@,
            StopReason::Exception => "exception"@,
            StopReason::DataBreakpoint => "data breakpoint"@,
            StopReason::FunctionBreakpoint => "function breakpoint"@,
        }
    }

    /// Returns the protocol string for this stop reason.
    pub fn as_str(&self) -> (s: &'static str)
        ensures
            s@ == self.as_str_spec(),
    {
        match self {
            StopReason::Entry => "entry",
            StopReason::Breakpoint => "breakpoint",
            StopReason::Step => "step",
            StopReason::Pause => "pause",
            StopReason::Exception => "exception",
            StopReason::DataBreakpoint => "data breakpoint",
            StopReason::FunctionBreakpoint => "function breakpoint",
        }
    }
}

/// Requests sent from the DAP server to the sandbox: the debugging
/// operations to perform on the guest.
#[derive(Debug)]
pub enum DapRequest {
    /// Initialize the debug session.
    Initialize,
    /// Configure the debug session, after initialize.
    ConfigurationDone,
    /// Set breakpoints in a source file.
    SetBreakpoints {
        /// Path to the source file.
        source_path: String,
        /// Line numbers where breakpoints should be set.
        lines: Vec<u32>,
    },
    /// Set function breakpoints.
    SetFunctionBreakpoints {
        /// Function names to break on.
        names: Vec<String>,
    },
    /// Continue execution.
    Continue,
    /// Step to next line, stepping over calls.
    Next,
    /// Step into function calls.
    StepIn,
    /// Step out of the current function.
    StepOut,
    /// Pause execution.
    Pause,
    /// Get the current call stack.
    StackTrace {
        /// Starting frame, if given.
        start_frame: Option<u32>,
        /// Maximum number of frames to return, if given.
        levels: Option<u32>,
    },
    /// Get scopes for a stack frame.
    Scopes {
        /// Frame id to get scopes for.
        frame_id: u32,
    },
    /// Get variables in a scope or container.
    Variables {
        /// Reference id of the scope or container.
        variables_reference: u32,
    },
    /// Evaluate an expression.
    Evaluate {
        /// Expression to evaluate.
        expression: String,
        /// Frame context for evaluation, if given.
        frame_id: Option<u32>,
        /// Context of evaluation: watch, repl, or hover.
        context: Option<String>,
    },
    /// Disconnect the debugger.
    Disconnect {
        /// Whether to terminate the debuggee.
        terminate: bool,
    },
}

/// Responses sent from the sandbox to the DAP server: results of
/// debugging operations, or events that occurred in the guest.
#[derive(Debug)]
pub enum DapResponse {
    /// Debug session initialized successfully.
    Initialized {
        /// Whether the runtime supports the configuration-done request.
        supports_configuration_done: bool,
    },
    /// Configuration completed.
    ConfigurationDone,
    /// Breakpoints were set, or were attempted.
    BreakpointsSet {
        /// Results for each requested breakpoint.
        breakpoints: Vec<Breakpoint>,
    },
    /// Function breakpoints were set.
    FunctionBreakpointsSet {
        /// Results for each requested function breakpoint.
        breakpoints: Vec<Breakpoint>,
    },
    /// Execution has stopped.
    Stopped {
        /// Reason for stopping.
        reason: StopReason,
        /// Current source location.
        location: SourceLocation,
        /// Ids of the breakpoints that were hit, if any.
        hit_breakpoint_ids: Option<Vec<u32>>,
        /// Exception text, if stopped due to an exception.
        exception_text: Option<String>,
    },
    /// Execution has continued.
    Continued,
    /// Execution has been paused.
    Paused,
    /// Stack trace response.
    StackTrace {
        /// Stack frames, most recent first.
        frames: Vec<StackFrame>,
        /// Total number of frames available.
        total_frames: u32,
    },
    /// Scopes for a stack frame.
    Scopes {
        /// Available scopes.
        scopes: Vec<Scope>,
    },
    /// Variables in a scope.
    Variables {
        /// Variables in the requested scope.
        variables: Vec<Variable>,
    },
    /// Result of expression evaluation.
    Evaluate {
        /// Result value as string.
        result: String,
        /// Type of the result.
        value_type: Option<String>,
        /// Reference if the result has children.
        variables_reference: u32,
    },
    /// Disconnected from the debug session.
    Disconnected,
    /// An error occurred.
    Error {
        /// Error message.
        message: String,
    },
    /// Output from the guest, for console or stdout.
    Output {
        /// Output category: console, stdout, or stderr.
        category: String,
        /// Output text.
        output: String,
        /// Optional source location.
        location: Option<SourceLocation>,
    },
    /// The debuggee has terminated.
    Terminated,
    /// The debuggee has exited.
    Exited {
        /// Exit code.
        exit_code: i32,
    },
}

} // verus!
