//! DAP wire protocol types: the message shapes exchanged with a debugger
//! client. The wire format is JSON; here every body is a typed value, and
//! the boundary that turns them into JSON text lives outside the library.

use vstd::prelude::*;
use vstd::string::StringExecFns;

verus! {

/// Base protocol message format: every DAP message has a sequence number
/// and a type field.
#[derive(Debug, Clone)]
pub struct ProtocolMessage {
    /// Sequence number of the message, unique within a session.
    pub seq: i64,
    /// Message type: request, response, or event.
    pub message_type: String,
}

/// A typed response body, one variant per command that answers with one.
#[derive(Debug, Clone)]
pub enum ResponseBody {
    /// Capabilities answered to `initialize`.
    Capabilities(Capabilities),
    /// Breakpoints answered to `setBreakpoints` and
    /// `setFunctionBreakpoints`.
    SetBreakpoints(SetBreakpointsResponseBody),
    /// Threads answered to `threads`.
    Threads(ThreadsResponseBody),
    /// Frames answered to `stackTrace`.
    StackTrace(StackTraceResponseBody),
    /// Scopes answered to `scopes`.
    Scopes(ScopesResponseBody),
    /// Variables answered to `variables`.
    Variables(VariablesResponseBody),
    /// Result answered to `evaluate`.
    Evaluate(EvaluateResponseBody),
    /// Body answered to `continue`.
    Continue(ContinueResponseBody),
}

/// A typed event body, one variant per event the server raises.
#[derive(Debug, Clone)]
pub enum EventBody {
    /// Body of a `stopped` event.
    Stopped(StoppedEventBody),
    /// Body of a `continued` event.
    Continued(ContinuedEventBody),
    /// Body of an `output` event.
    Output(OutputEventBody),
    /// A `terminated` event carries an empty body.
    Terminated,
    /// Body of an `exited` event.
    Exited(ExitedEventBody),
}

/// A server response message.
#[derive(Debug, Clone)]
pub struct Response {
    /// Sequence number, stamped by the server just before sending.
    pub seq: i64,
    /// Always the response message type.
    pub message_type: String,
    /// Sequence number of the request this responds to.
    pub request_seq: i64,
    /// Whether the request was successful.
    pub success: bool,
    /// The command that was requested.
    pub command: String,
    /// Error message when success is false.
    pub message: Option<String>,
    /// Response body, command-specific.
    pub body: Option<ResponseBody>,
}

impl Response {
    /// Creates a successful response; the sequence number is stamped by
    /// the server when the response is sent.
    pub fn success(request_seq: i64, command: &str, body: Option<ResponseBody>) -> (r: Response)
        ensures
            r.seq == 0,
            r.message_type@ == "response"@,
            r.request_seq == request_seq,
            r.success == true,
            r.command@ == command@,
            r.message is None,
            r.body == body,
    {
        Response {
            seq: 0,
            message_type: "response".to_owned(),
            request_seq,
            success: true,
            command: command.to_owned(),
            message: None,
            body,
        }
    }

    /// Creates an error response carrying `message`.
    pub fn error(request_seq: i64, command: &str, message: &str) -> (r: Response)
        ensures
            r.seq == 0,
            r.message_type@ == "response"@,
            r.request_seq == request_seq,
            r.success == false,
            r.command@ == command@,
            r.message matches Some(m) && m@ == message@,
            r.body is None,
    {
        Response {
            seq: 0,
            message_type: "response".to_owned(),
            request_seq,
            success: false,
            command: command.to_owned(),
            message: Some(message.to_owned()),
            body: None,
        }
    }
}

/// A server event message.
#[derive(Debug, Clone)]
pub struct Event {
    /// Sequence number, stamped by the server just before sending.
    pub seq: i64,
    /// Always the event message type.
    pub message_type: String,
    /// Type of event.
    pub event: String,
    /// Event-specific body.
    pub body: Option<EventBody>,
}

impl Event {
    /// Creates a new event; the sequence number is stamped by the server
    /// when the event is sent.
    pub fn new(event: &str, body: Option<EventBody>) -> (r: Event)
        ensures
            r.seq == 0,
            r.message_type@ == "event"@,
            r.event@ == event@,
            r.body == body,
    {
        Event { seq: 0, message_type: "event".to_owned(), event: event.to_owned(), body }
    }
}

/// Arguments for the `initialize` request.
#[derive(Debug, Clone)]
pub struct InitializeRequestArguments {
    /// The id of the client.
    pub client_id: Option<String>,
    /// The human-readable name of the client.
    pub client_name: Option<String>,
    /// The id of the debug adapter.
    pub adapter_id: String,
    /// The locale of the client.
    pub locale: Option<String>,
    /// Whether the client supports the run-in-terminal request.
    pub supports_run_in_terminal_request: bool,
    /// Whether the client supports progress reporting.
    pub supports_progress_reporting: bool,
    /// Whether the client supports variable type information.
    pub supports_variable_type: bool,
}

/// A source file reference.
#[derive(Debug, Clone)]
pub struct Source {
    /// Name of the source, the short name displayed in the UI.
    pub name: Option<String>,
    /// Path to the source file.
    pub path: Option<String>,
    /// Source reference, for sources without a file path.
    pub source_reference: Option<i64>,
}

/// A breakpoint in source code.
#[derive(Debug, Clone)]
pub struct SourceBreakpoint {
    /// Line number, 1-based.
    pub line: i64,
    /// Column, 1-based, if given.
    pub column: Option<i64>,
    /// Condition expression.
    pub condition: Option<String>,
    /// Hit count condition.
    pub hit_condition: Option<String>,
    /// Log message, for logpoints.
    pub log_message: Option<String>,
}

/// Arguments for the `setBreakpoints` request.
#[derive(Debug, Clone)]
pub struct SetBreakpointsArguments {
    /// The source location of the breakpoints.
    pub source: Source,
    /// The breakpoints to set.
    pub breakpoints: Vec<SourceBreakpoint>,
    /// Deprecated line-number form of the breakpoints.
    pub lines: Vec<i64>,
    /// Whether the source was modified.
    pub source_modified: bool,
}

/// A function breakpoint.
#[derive(Debug, Clone)]
pub struct FunctionBreakpoint {
    /// Name of the function.
    pub name: String,
    /// Condition expression.
    pub condition: Option<String>,
    /// Hit count condition.
    pub hit_condition: Option<String>,
}

/// Arguments for the `setFunctionBreakpoints` request.
#[derive(Debug, Clone)]
pub struct SetFunctionBreakpointsArguments {
    /// The function breakpoints to set.
    pub breakpoints: Vec<FunctionBreakpoint>,
}

/// Arguments for the `stackTrace` request.
#[derive(Debug, Clone)]
pub struct StackTraceArguments {
    /// Thread id.
    pub thread_id: i64,
    /// Index of the first frame to retrieve.
    pub start_frame: Option<i64>,
    /// Maximum number of frames to retrieve.
    pub levels: Option<i64>,
}

/// Arguments for the `scopes` request.
#[derive(Debug, Clone)]
pub struct ScopesArguments {
    /// Frame id to get scopes for.
    pub frame_id: i64,
}

/// Arguments for the `variables` request.
#[derive(Debug, Clone)]
pub struct VariablesArguments {
    /// Reference of the container to get variables from.
    pub variables_reference: i64,
    /// Filter for the kind of variables to include.
    pub filter: Option<String>,
    /// Start index of the variables to return.
    pub start: Option<i64>,
    /// Number of variables to return.
    pub count: Option<i64>,
}

/// Arguments for the `evaluate` request.
#[derive(Debug, Clone)]
pub struct EvaluateArguments {
    /// Expression to evaluate.
    pub expression: String,
    /// Frame id for context, if given.
    pub frame_id: Option<i64>,
    /// Context of evaluation.
    pub context: Option<String>,
}

/// Arguments for the `continue` request.
#[derive(Debug, Clone)]
pub struct ContinueArguments {
    /// Thread to continue, usually the only thread.
    pub thread_id: i64,
    /// Continue only the specified thread.
    pub single_thread: bool,
}

/// Arguments for the `disconnect` request.
#[derive(Debug, Clone)]
pub struct DisconnectArguments {
    /// Whether to restart after disconnect.
    pub restart: bool,
    /// Whether to terminate the debuggee.
    pub terminate_debuggee: bool,
    /// Whether to suspend the debuggee.
    pub suspend_debuggee: bool,
}

/// Capabilities returned from the `initialize` request.
#[derive(Debug, Clone, PartialEq, Eq, Structural)]
pub struct Capabilities {
    /// Whether the adapter supports the configuration-done request.
    pub supports_configuration_done_request: bool,
    /// Whether the adapter supports function breakpoints.
    pub supports_function_breakpoints: bool,
    /// Whether the adapter supports conditional breakpoints.
    pub supports_conditional_breakpoints: bool,
    /// Whether the adapter supports hit-count breakpoints.
    pub supports_hit_conditional_breakpoints: bool,
    /// Whether the adapter supports evaluate in hover.
    pub supports_evaluate_for_hovers: bool,
    /// Whether the adapter supports stepping back.
    pub supports_step_back: bool,
    /// Whether the adapter supports setting variable values.
    pub supports_set_variable: bool,
    /// Whether the adapter supports restarting frames.
    pub supports_restart_frame: bool,
    /// Whether the adapter supports goto targets.
    pub supports_goto_targets_request: bool,
    /// Whether the adapter supports step-in targets.
    pub supports_step_in_targets_request: bool,
    /// Whether the adapter supports completions.
    pub supports_completions_request: bool,
    /// Whether the adapter supports modules.
    pub supports_modules_request: bool,
    /// Whether the adapter supports the terminate request.
    pub supports_terminate_request: bool,
    /// Whether the adapter supports exception options.
    pub supports_exception_options: bool,
    /// Whether the adapter supports value formatting options.
    pub supports_value_formatting_options: bool,
    /// Whether the adapter supports exception info.
    pub supports_exception_info_request: bool,
    /// Whether the adapter supports terminating the debuggee.
    pub support_terminate_debuggee: bool,
    /// Whether the adapter supports delayed stack trace loading.
    pub supports_delayed_stack_trace_loading: bool,
    /// Whether the adapter supports loaded sources.
    pub supports_loaded_sources_request: bool,
    /// Whether the adapter supports log points.
    pub supports_log_points: bool,
    /// Whether the adapter supports terminating threads.
    pub supports_terminate_threads_request: bool,
    /// Whether the adapter supports set expression.
    pub supports_set_expression: bool,
    /// Whether the adapter supports single-thread execution requests.
    pub supports_single_thread_execution_requests: bool,
}

/// Information about a breakpoint, as reported to the client.
#[derive(Debug, Clone)]
pub struct BreakpointInfo {
    /// Unique id of the breakpoint.
    pub id: Option<i64>,
    /// Whether the breakpoint was successfully set.
    pub verified: bool,
    /// Error message when not verified.
    pub message: Option<String>,
    /// Actual source where the breakpoint was set.
    pub source: Option<Source>,
    /// Actual line where the breakpoint was set.
    pub line: Option<i64>,
    /// Actual column where the breakpoint was set.
    pub column: Option<i64>,
}

/// Body of a `setBreakpoints` response.
#[derive(Debug, Clone)]
pub struct SetBreakpointsResponseBody {
    /// Breakpoints that were set.
    pub breakpoints: Vec<BreakpointInfo>,
}

/// One thread, as reported to the client.
#[derive(Debug, Clone)]
pub struct ThreadInfo {
    /// Thread id.
    pub id: i64,
    /// Thread name.
    pub name: String,
}

/// Body of a `threads` response.
#[derive(Debug, Clone)]
pub struct ThreadsResponseBody {
    /// The threads of the debuggee.
    pub threads: Vec<ThreadInfo>,
}

/// Information about a stack frame, as reported to the client.
#[derive(Debug, Clone)]
pub struct StackFrameInfo {
    /// Unique id.
    pub id: i64,
    /// Name, usually the function name.
    pub name: String,
    /// Source location.
    pub source: Option<Source>,
    /// Line number.
    pub line: i64,
    /// Column number.
    pub column: i64,
}

/// Body of a `stackTrace` response.
#[derive(Debug, Clone)]
pub struct StackTraceResponseBody {
    /// Stack frames.
    pub stack_frames: Vec<StackFrameInfo>,
    /// Total number of frames.
    pub total_frames: Option<i64>,
}

/// Information about a scope, as reported to the client.
#[derive(Debug, Clone)]
pub struct ScopeInfo {
    /// Name of the scope.
    pub name: String,
    /// Reference for retrieving its variables.
    pub variables_reference: i64,
    /// Whether this scope is expensive to retrieve.
    pub expensive: bool,
}

/// Body of a `scopes` response.
#[derive(Debug, Clone)]
pub struct ScopesResponseBody {
    /// Scopes for the frame.
    pub scopes: Vec<ScopeInfo>,
}

/// Information about a variable, as reported to the client.
#[derive(Debug, Clone)]
pub struct VariableInfo {
    /// Name of the variable.
    pub name: String,
    /// Value as a string.
    pub value: String,
    /// Type of the variable.
    pub value_type: Option<String>,
    /// Reference for child variables.
    pub variables_reference: i64,
}

/// Body of a `variables` response.
#[derive(Debug, Clone)]
pub struct VariablesResponseBody {
    /// Variables in the scope.
    pub variables: Vec<VariableInfo>,
}

/// Body of an `evaluate` response.
#[derive(Debug, Clone)]
pub struct EvaluateResponseBody {
    /// Result value.
    pub result: String,
    /// Type of the result.
    pub value_type: Option<String>,
    /// Reference for child variables.
    pub variables_reference: i64,
}

/// Body of a `continue` response.
#[derive(Debug, Clone)]
pub struct ContinueResponseBody {
    /// Whether all threads continued.
    pub all_threads_continued: bool,
}

/// The default for fields that are true unless the client says otherwise.
pub fn default_true() -> (b: bool)
    ensures
        b == true,
{
    true
}

/// Body of a `stopped` event.
#[derive(Debug, Clone)]
pub struct StoppedEventBody {
    /// Reason for stopping.
    pub reason: String,
    /// Additional description.
    pub description: Option<String>,
    /// Thread that stopped.
    pub thread_id: Option<i64>,
    /// Whether all threads stopped.
    pub all_threads_stopped: bool,
    /// Ids of the breakpoints that were hit.
    pub hit_breakpoint_ids: Option<Vec<i64>>,
    /// Exception text.
    pub text: Option<String>,
}

/// Body of a `continued` event.
#[derive(Debug, Clone)]
pub struct ContinuedEventBody {
    /// Thread that continued.
    pub thread_id: i64,
    /// Whether all threads continued.
    pub all_threads_continued: bool,
}

/// Body of an `output` event.
#[derive(Debug, Clone)]
pub struct OutputEventBody {
    /// Output category.
    pub category: Option<String>,
    /// Output text.
    pub output: String,
    /// Source location.
    pub source: Option<Source>,
    /// Line number.
    pub line: Option<i64>,
    /// Column number.
    pub column: Option<i64>,
}

/// Body of an `exited` event.
#[derive(Debug, Clone)]
pub struct ExitedEventBody {
    /// Exit code.
    pub exit_code: i64,
}

/// Body of a `thread` event.
#[derive(Debug, Clone)]
pub struct ThreadEventBody {
    /// Reason for the event.
    pub reason: String,
    /// Thread id.
    pub thread_id: i64,
}

/// Body of a `breakpoint` event.
#[derive(Debug, Clone)]
pub struct BreakpointEventBody {
    /// Reason for the event.
    pub reason: String,
    /// Updated breakpoint info.
    pub breakpoint: BreakpointInfo,
}

} // verus!
