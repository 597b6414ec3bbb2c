use hyperlight_core::dap::messages::{Scope, StackFrame, Variable};
use hyperlight_core::dap::protocol::{
    EvaluateArguments, Event, EventBody, InitializeRequestArguments, Response, ResponseBody,
    SetBreakpointsArguments, Source, SourceBreakpoint, default_true,
};
use hyperlight_core::dap::session::{DapCommand, DapSession, MAIN_THREAD_ID, evaluate_response,
    scopes_response, stack_trace_response, variables_response};
use hyperlight_core::dap::{DapCommChannel, DapRequest, DapResponse, SourceLocation};

fn initialize_args() -> InitializeRequestArguments {
    InitializeRequestArguments {
        client_id: Some("test".to_string()),
        client_name: None,
        adapter_id: "hyperlight".to_string(),
        locale: None,
        supports_run_in_terminal_request: false,
        supports_progress_reporting: false,
        supports_variable_type: false,
    }
}

fn new_session() -> (DapSession, DapCommChannel<DapResponse, DapRequest>) {
    let (server, vm) = DapCommChannel::<DapRequest, DapResponse>::unbounded();
    (DapSession::new(server), vm)
}

#[test]
fn initialize_succeeds_once_and_only_once() {
    let (mut session, vm) = new_session();
    let r = session.handle_initialize(1, initialize_args());
    assert!(r.success);
    assert_eq!(r.command, "initialize");
    assert_eq!(r.request_seq, 1);
    match r.body {
        Some(ResponseBody::Capabilities(c)) => {
            assert!(c.supports_configuration_done_request);
            assert!(c.supports_function_breakpoints);
            assert!(c.supports_evaluate_for_hovers);
            assert!(c.support_terminate_debuggee);
            assert!(!c.supports_step_back);
            assert!(!c.supports_set_variable);
        }
        other => panic!("expected capabilities, got {:?}", other),
    }
    assert!(matches!(vm.recv().unwrap(), DapRequest::Initialize));

    let r = session.handle_initialize(2, initialize_args());
    assert!(!r.success);
    assert_eq!(r.message.as_deref(), Some("Already initialized"));
}

#[test]
fn stamping_hands_out_consecutive_sequence_numbers() {
    let (mut session, _vm) = new_session();
    let first = session.stamp_response(Response::success(1, "launch", None));
    let second = session.stamp_event(Event::new("initialized", None));
    let third = session.stamp_response(Response::success(2, "attach", None));
    assert_eq!(first.seq, 1);
    assert_eq!(second.seq, 2);
    assert_eq!(third.seq, 3);
}

#[test]
fn launch_and_attach_raise_the_initialized_event() {
    let (mut session, _vm) = new_session();
    let (event, response) = session.handle_launch(5);
    assert_eq!(event.event, "initialized");
    assert!(response.success);
    assert_eq!(response.command, "launch");

    let (event, response) = session.handle_attach(6);
    assert_eq!(event.event, "initialized");
    assert!(response.success);
    assert_eq!(response.command, "attach");
}

#[test]
fn threads_reports_exactly_the_main_thread() {
    let (mut session, _vm) = new_session();
    let r = session.handle_threads(9);
    assert!(r.success);
    match r.body {
        Some(ResponseBody::Threads(body)) => {
            assert_eq!(body.threads.len(), 1);
            assert_eq!(body.threads[0].id, MAIN_THREAD_ID);
            assert_eq!(body.threads[0].name, "main");
        }
        other => panic!("expected threads body, got {:?}", other),
    }
}

#[test]
fn set_breakpoints_forwards_lines_and_verifies_each() {
    let (mut session, vm) = new_session();
    let args = SetBreakpointsArguments {
        source: Source {
            name: Some("app".to_string()),
            path: Some("/src/app.js".to_string()),
            source_reference: None,
        },
        breakpoints: vec![
            SourceBreakpoint {
                line: 4,
                column: None,
                condition: None,
                hit_condition: None,
                log_message: None,
            },
            SourceBreakpoint {
                line: 9,
                column: None,
                condition: None,
                hit_condition: None,
                log_message: None,
            },
        ],
        lines: Vec::new(),
        source_modified: false,
    };
    let r = session.handle_set_breakpoints(3, args);
    assert!(r.success);
    match vm.recv().unwrap() {
        DapRequest::SetBreakpoints { source_path, lines } => {
            assert_eq!(source_path, "/src/app.js");
            assert_eq!(lines, vec![4, 9]);
        }
        other => panic!("expected SetBreakpoints, got {:?}", other),
    }
    match r.body {
        Some(ResponseBody::SetBreakpoints(body)) => {
            assert_eq!(body.breakpoints.len(), 2);
            assert_eq!(body.breakpoints[0].id, Some(1));
            assert_eq!(body.breakpoints[1].id, Some(2));
            assert!(body.breakpoints.iter().all(|bp| bp.verified));
            assert_eq!(body.breakpoints[0].line, Some(4));
            assert_eq!(
                body.breakpoints[0].source.as_ref().unwrap().path.as_deref(),
                Some("/src/app.js")
            );
        }
        other => panic!("expected breakpoints body, got {:?}", other),
    }
}

#[test]
fn stack_trace_renders_the_queued_reply() {
    let (mut session, vm) = new_session();
    vm.send(DapResponse::StackTrace {
        frames: vec![StackFrame {
            id: 2,
            name: "f".to_string(),
            location: SourceLocation::new("lib.js", 14).with_column(6),
        }],
        total_frames: 1,
    })
    .unwrap();

    let r = session.handle_stack_trace(
        4,
        hyperlight_core::dap::protocol::StackTraceArguments {
            thread_id: MAIN_THREAD_ID,
            start_frame: None,
            levels: None,
        },
    );
    assert!(r.success);
    match r.body {
        Some(ResponseBody::StackTrace(body)) => {
            assert_eq!(body.total_frames, Some(1));
            assert_eq!(body.stack_frames.len(), 1);
            assert_eq!(body.stack_frames[0].id, 2);
            assert_eq!(body.stack_frames[0].name, "f");
            assert_eq!(body.stack_frames[0].line, 14);
            assert_eq!(body.stack_frames[0].column, 6);
        }
        other => panic!("expected stack trace body, got {:?}", other),
    }
    assert!(matches!(vm.recv().unwrap(), DapRequest::StackTrace { .. }));
}

#[test]
fn reply_builders_reject_unexpected_replies() {
    let r = stack_trace_response(1, DapResponse::Continued);
    assert!(!r.success);
    assert_eq!(r.message.as_deref(), Some("Unexpected response from VM"));

    let r = scopes_response(1, DapResponse::Error { message: "nope".to_string() });
    assert!(!r.success);
    assert_eq!(r.message.as_deref(), Some("nope"));

    let r = variables_response(
        1,
        DapResponse::Variables {
            variables: vec![Variable {
                name: "x".to_string(),
                value: "1".to_string(),
                value_type: Some("number".to_string()),
                variables_reference: 0,
            }],
        },
    );
    assert!(r.success);

    let r = evaluate_response(
        1,
        DapResponse::Evaluate {
            result: "2".to_string(),
            value_type: None,
            variables_reference: 0,
        },
    );
    assert!(r.success);

    let r = scopes_response(
        1,
        DapResponse::Scopes {
            scopes: vec![Scope {
                name: "Locals".to_string(),
                variables_reference: 1001,
                expensive: false,
            }],
        },
    );
    match r.body {
        Some(ResponseBody::Scopes(body)) => {
            assert_eq!(body.scopes[0].variables_reference, 1001);
        }
        other => panic!("expected scopes body, got {:?}", other),
    }
}

#[test]
fn evaluate_round_trips_through_the_channel() {
    let (mut session, vm) = new_session();
    vm.send(DapResponse::Evaluate {
        result: "3".to_string(),
        value_type: Some("number".to_string()),
        variables_reference: 0,
    })
    .unwrap();
    let r = session.handle_evaluate(
        8,
        EvaluateArguments { expression: "1+2".to_string(), frame_id: None, context: None },
    );
    assert!(r.success);
    match vm.recv().unwrap() {
        DapRequest::Evaluate { expression, .. } => assert_eq!(expression, "1+2"),
        other => panic!("expected Evaluate, got {:?}", other),
    }
    match r.body {
        Some(ResponseBody::Evaluate(body)) => assert_eq!(body.result, "3"),
        other => panic!("expected evaluate body, got {:?}", other),
    }
}

#[test]
fn unknown_commands_are_rejected() {
    let (mut session, _vm) = new_session();
    let (event, r) = session.handle_command(11, DapCommand::Unknown("restart".to_string()));
    assert!(event.is_none());
    assert!(!r.success);
    assert_eq!(r.command, "restart");
    assert_eq!(r.message.as_deref(), Some("Unknown command"));
    assert_eq!(r.request_seq, 11);
}

#[test]
fn stopped_responses_become_stopped_events() {
    let (mut session, _vm) = new_session();
    let ev = session.response_to_event(DapResponse::Stopped {
        reason: hyperlight_core::dap::messages::StopReason::Breakpoint,
        location: SourceLocation::new("app.js", 42),
        hit_breakpoint_ids: Some(vec![3]),
        exception_text: None,
    });
    let event = ev.unwrap();
    assert_eq!(event.event, "stopped");
    match event.body {
        Some(EventBody::Stopped(body)) => {
            assert_eq!(body.reason, "breakpoint");
            assert_eq!(body.description.as_deref(), Some("Paused at app.js:42"));
            assert_eq!(body.thread_id, Some(MAIN_THREAD_ID));
            assert!(body.all_threads_stopped);
            assert_eq!(body.hit_breakpoint_ids, Some(vec![3]));
        }
        other => panic!("expected stopped body, got {:?}", other),
    }

    let ev = session.response_to_event(DapResponse::Exited { exit_code: 3 });
    let event = ev.unwrap();
    assert_eq!(event.event, "exited");
    match event.body {
        Some(EventBody::Exited(body)) => assert_eq!(body.exit_code, 3),
        other => panic!("expected exited body, got {:?}", other),
    }

    // answers to pending requests raise no event
    let ev = session.response_to_event(DapResponse::ConfigurationDone);
    assert!(ev.is_none());
}

#[test]
fn poll_drains_pending_vm_events() {
    let (mut session, vm) = new_session();
    vm.send(DapResponse::Continued).unwrap();
    vm.send(DapResponse::Terminated).unwrap();
    let events = session.poll_vm_events();
    assert_eq!(events.len(), 2);
    assert_eq!(events[0].event, "continued");
    assert_eq!(events[1].event, "terminated");

    let events = session.poll_vm_events();
    assert!(events.is_empty());
}

#[test]
fn default_true_is_true() {
    assert!(default_true());
}
