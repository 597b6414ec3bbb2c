use hyperlight_core::dap::context::DapContext;
use hyperlight_core::dap::host_funcs::{
    DebugAction, DebugActionType, DebugBreakEvent, DebugBreakReason, DebugLocation,
    DebugStackFrame, handle_debug_break, process_request,
};
use hyperlight_core::dap::{DapCommChannel, DapRequest, DapResponse};

fn sample_event() -> DebugBreakEvent {
    DebugBreakEvent {
        reason: DebugBreakReason::Breakpoint,
        location: DebugLocation {
            filename: "app.js".to_string(),
            function_name: Some("main".to_string()),
            line: 10,
            column: None,
        },
        stack_frames: vec![DebugStackFrame {
            id: 1,
            name: "main".to_string(),
            location: DebugLocation {
                filename: "app.js".to_string(),
                function_name: Some("main".to_string()),
                line: 10,
                column: Some(2),
            },
        }],
        exception_message: None,
    }
}

#[test]
fn resume_requests_decide_the_action() {
    let event = sample_event();
    let mut breakpoints = Vec::new();

    let (reply, decided) = process_request(&event, &mut breakpoints, DapRequest::Continue);
    assert!(matches!(reply, Some(DapResponse::Continued)));
    assert_eq!(decided, Some(DebugActionType::Continue));

    let (reply, decided) = process_request(&event, &mut breakpoints, DapRequest::Next);
    assert!(matches!(reply, Some(DapResponse::Continued)));
    assert_eq!(decided, Some(DebugActionType::StepOver));

    let (reply, decided) = process_request(&event, &mut breakpoints, DapRequest::StepIn);
    assert!(matches!(reply, Some(DapResponse::Continued)));
    assert_eq!(decided, Some(DebugActionType::StepInto));

    let (reply, decided) = process_request(&event, &mut breakpoints, DapRequest::StepOut);
    assert!(matches!(reply, Some(DapResponse::Continued)));
    assert_eq!(decided, Some(DebugActionType::StepOut));

    let (reply, decided) =
        process_request(&event, &mut breakpoints, DapRequest::Disconnect { terminate: true });
    assert!(matches!(reply, Some(DapResponse::Disconnected)));
    assert_eq!(decided, Some(DebugActionType::Disconnect));

    assert!(breakpoints.is_empty());
}

#[test]
fn set_breakpoints_accumulates_and_acknowledges() {
    let event = sample_event();
    let mut breakpoints = Vec::new();

    let (reply, decided) = process_request(
        &event,
        &mut breakpoints,
        DapRequest::SetBreakpoints {
            source_path: "app.js".to_string(),
            lines: vec![3, 7],
        },
    );
    assert!(decided.is_none());
    assert_eq!(breakpoints.len(), 2);
    assert_eq!(breakpoints[0].id, 0);
    assert_eq!(breakpoints[0].filename, "app.js");
    assert_eq!(breakpoints[0].line, 3);
    assert!(breakpoints[0].enabled);
    assert_eq!(breakpoints[1].line, 7);

    match reply {
        Some(DapResponse::BreakpointsSet { breakpoints: acked }) => {
            assert_eq!(acked.len(), 2);
            assert!(acked.iter().all(|bp| bp.verified));
            assert_eq!(acked[1].line, 7);
        }
        other => panic!("expected BreakpointsSet, got {:?}", other),
    }
}

#[test]
fn stack_trace_echoes_the_event_frames() {
    let event = sample_event();
    let mut breakpoints = Vec::new();
    let (reply, decided) = process_request(
        &event,
        &mut breakpoints,
        DapRequest::StackTrace { start_frame: None, levels: None },
    );
    assert!(decided.is_none());
    match reply {
        Some(DapResponse::StackTrace { frames, total_frames }) => {
            assert_eq!(total_frames, 1);
            assert_eq!(frames.len(), 1);
            assert_eq!(frames[0].id, 1);
            assert_eq!(frames[0].name, "main");
            assert_eq!(frames[0].location.filename, "app.js");
            assert_eq!(frames[0].location.line, 10);
        }
        other => panic!("expected StackTrace, got {:?}", other),
    }
}

#[test]
fn scopes_and_variables_and_evaluate_replies() {
    let event = sample_event();
    let mut breakpoints = Vec::new();

    let (reply, _) =
        process_request(&event, &mut breakpoints, DapRequest::Scopes { frame_id: 4 });
    match reply {
        Some(DapResponse::Scopes { scopes }) => {
            assert_eq!(scopes.len(), 1);
            assert_eq!(scopes[0].name, "Locals");
            assert_eq!(scopes[0].variables_reference, 1004);
            assert!(!scopes[0].expensive);
        }
        other => panic!("expected Scopes, got {:?}", other),
    }

    let (reply, _) = process_request(
        &event,
        &mut breakpoints,
        DapRequest::Variables { variables_reference: 1004 },
    );
    match reply {
        Some(DapResponse::Variables { variables }) => assert!(variables.is_empty()),
        other => panic!("expected Variables, got {:?}", other),
    }

    let (reply, _) = process_request(
        &event,
        &mut breakpoints,
        DapRequest::Evaluate { expression: "x + 1".to_string(), frame_id: None, context: None },
    );
    match reply {
        Some(DapResponse::Evaluate { result, value_type, variables_reference }) => {
            assert_eq!(result, "(evaluation not implemented: x + 1)");
            assert_eq!(value_type.as_deref(), Some("string"));
            assert_eq!(variables_reference, 0);
        }
        other => panic!("expected Evaluate, got {:?}", other),
    }
}

#[test]
fn handle_debug_break_serves_queued_commands_until_resume() {
    let (debugger, vm): (
        DapCommChannel<DapRequest, DapResponse>,
        DapCommChannel<DapResponse, DapRequest>,
    ) = DapCommChannel::unbounded();

    // Queue the debugger's commands before the break is reported: the
    // channel is unbounded, so the break loop drains them in order.
    debugger
        .send(DapRequest::SetBreakpoints {
            source_path: "app.js".to_string(),
            lines: vec![5],
        })
        .unwrap();
    debugger.send(DapRequest::Continue).unwrap();

    let action: DebugAction = handle_debug_break(&vm, sample_event());
    assert_eq!(action.action, DebugActionType::Continue);
    assert_eq!(action.breakpoints.len(), 1);
    assert_eq!(action.breakpoints[0].line, 5);
    assert!(action.breakpoints.iter().all(|bp| bp.enabled));

    // The debugger saw the stop first — built from the break event:
    // its reason, its location, no hit-breakpoint ids, its exception
    // text — then the breakpoint acknowledgment, then the continue.
    match debugger.recv().unwrap() {
        DapResponse::Stopped { reason, location, hit_breakpoint_ids, exception_text } => {
            assert_eq!(reason, hyperlight_core::dap::StopReason::Breakpoint);
            assert_eq!(location.filename, "app.js");
            assert_eq!(location.function_name.as_deref(), Some("main"));
            assert_eq!(location.line, 10);
            assert!(location.column.is_none());
            assert!(hit_breakpoint_ids.is_none());
            assert!(exception_text.is_none());
        }
        other => panic!("expected Stopped first, got {:?}", other),
    }
    assert!(matches!(debugger.recv().unwrap(), DapResponse::BreakpointsSet { .. }));
    assert!(matches!(debugger.recv().unwrap(), DapResponse::Continued));
}

#[test]
fn handle_debug_break_continues_when_the_debugger_is_gone() {
    let (debugger, vm): (
        DapCommChannel<DapRequest, DapResponse>,
        DapCommChannel<DapResponse, DapRequest>,
    ) = DapCommChannel::unbounded();
    drop(debugger);

    let action = handle_debug_break(&vm, sample_event());
    assert_eq!(action.action, DebugActionType::Continue);
    assert!(action.breakpoints.is_empty());
}

#[test]
fn unconnected_context_continues_execution() {
    let context = DapContext::new();
    assert!(!context.is_connected());
    let action = context.handle_break(sample_event());
    assert_eq!(action.action, DebugActionType::Continue);
    assert!(action.breakpoints.is_empty());
}

#[test]
fn connected_context_routes_to_the_channel() {
    let (debugger, vm): (
        DapCommChannel<DapRequest, DapResponse>,
        DapCommChannel<DapResponse, DapRequest>,
    ) = DapCommChannel::unbounded();
    debugger.send(DapRequest::StepIn).unwrap();

    let mut context = DapContext::new();
    context.set_channel(vm);
    assert!(context.is_connected());

    let action = context.handle_break(sample_event());
    assert_eq!(action.action, DebugActionType::StepInto);
}
