use hyperlight_core::outb::GuestEvent;
use hyperlight_core::trace_state::GuestState;

#[test]
fn alloc_id_is_strictly_increasing_from_one() {
    let mut state = GuestState::new(0);
    let mut previous: u64 = 0;
    for expected in 1..=100u64 {
        let id = state.alloc_id();
        assert_eq!(id, expected);
        assert!(id > previous);
        previous = id;
    }
}

#[test]
fn nested_spans_emit_open_and_close_in_order() {
    // Open span A (id 1), open nested span B (id 2, parent 1), close B,
    // close A; the emitted sequence is exactly OpenSpan(1),
    // OpenSpan(2, parent 1), CloseSpan(2), CloseSpan(1).
    let mut state = GuestState::new(10);
    let a = state.new_span("A".to_string(), "target".to_string(), Vec::new(), 11);
    assert_eq!(a, 1);
    state.enter(a);
    let b = state.new_span("B".to_string(), "target".to_string(), Vec::new(), 12);
    assert_eq!(b, 2);
    state.enter(b);
    state.exit(b);
    assert!(state.try_close(b, 13));
    state.exit(a);
    assert!(state.try_close(a, 14));

    let events = state.serialized_data().unwrap();
    assert_eq!(events.len(), 5);
    assert!(matches!(events[0], GuestEvent::GuestStart { tsc: 10 }));
    match &events[1] {
        GuestEvent::OpenSpan { id, parent_id, name, .. } => {
            assert_eq!(*id, 1);
            assert_eq!(*parent_id, None);
            assert_eq!(name, "A");
        }
        other => panic!("expected OpenSpan, got {:?}", other),
    }
    match &events[2] {
        GuestEvent::OpenSpan { id, parent_id, name, .. } => {
            assert_eq!(*id, 2);
            assert_eq!(*parent_id, Some(1));
            assert_eq!(name, "B");
        }
        other => panic!("expected OpenSpan, got {:?}", other),
    }
    assert!(matches!(events[3], GuestEvent::CloseSpan { id: 2, tsc: 13 }));
    assert!(matches!(events[4], GuestEvent::CloseSpan { id: 1, tsc: 14 }));
}

#[test]
fn end_trace_closes_each_open_span_once() {
    let mut state = GuestState::new(0);
    let a = state.new_span("a".to_string(), "t".to_string(), Vec::new(), 1);
    state.enter(a);
    let b = state.new_span("b".to_string(), "t".to_string(), Vec::new(), 2);
    state.enter(b);
    let c = state.new_span("c".to_string(), "t".to_string(), Vec::new(), 3);
    state.enter(c);

    state.end_trace(99);

    let events = state.serialized_data().unwrap();
    // GuestStart, three opens, then exactly one CloseSpan per open span,
    // top of the stack first.
    assert_eq!(events.len(), 7);
    assert!(matches!(events[4], GuestEvent::CloseSpan { id: 3, tsc: 99 }));
    assert!(matches!(events[5], GuestEvent::CloseSpan { id: 2, tsc: 99 }));
    assert!(matches!(events[6], GuestEvent::CloseSpan { id: 1, tsc: 99 }));

    // The stack is empty afterwards: a log event now has no parent span.
    state.event("after".to_string(), Vec::new(), 100);
    let events = state.serialized_data().unwrap();
    match events.last().unwrap() {
        GuestEvent::LogEvent { parent_id, .. } => assert_eq!(*parent_id, 0),
        other => panic!("expected LogEvent, got {:?}", other),
    }
}

#[test]
fn log_events_attach_to_the_innermost_span() {
    let mut state = GuestState::new(0);
    state.event("outside".to_string(), Vec::new(), 1);
    let a = state.new_span("a".to_string(), "t".to_string(), Vec::new(), 2);
    state.enter(a);
    state.event("inside".to_string(), Vec::new(), 3);

    let events = state.serialized_data().unwrap();
    match &events[1] {
        GuestEvent::LogEvent { parent_id, name, .. } => {
            assert_eq!(*parent_id, 0);
            assert_eq!(name, "outside");
        }
        other => panic!("expected LogEvent, got {:?}", other),
    }
    match &events[3] {
        GuestEvent::LogEvent { parent_id, name, .. } => {
            assert_eq!(*parent_id, 1);
            assert_eq!(name, "inside");
        }
        other => panic!("expected LogEvent, got {:?}", other),
    }
}

#[test]
fn record_edits_a_span_without_touching_the_stack() {
    let mut state = GuestState::new(0);
    let a = state.new_span("a".to_string(), "t".to_string(), Vec::new(), 1);
    state.enter(a);
    state.record(a, Vec::new());
    let events = state.serialized_data().unwrap();
    assert!(matches!(events.last().unwrap(), GuestEvent::EditSpan { id: 1, .. }));
    // the span is still open: a new span nests under it
    let b = state.new_span("b".to_string(), "t".to_string(), Vec::new(), 2);
    assert_eq!(b, 2);
    let events = state.serialized_data().unwrap();
    match events.last().unwrap() {
        GuestEvent::OpenSpan { parent_id, .. } => assert_eq!(*parent_id, Some(1)),
        other => panic!("expected OpenSpan, got {:?}", other),
    }
}

#[test]
fn flush_empties_the_batch_and_new_call_restarts_it() {
    let mut state = GuestState::new(0);
    let a = state.new_span("a".to_string(), "t".to_string(), Vec::new(), 1);
    state.enter(a);
    state.flush(5);
    assert!(state.serialized_data().is_none());

    state.new_call(42);
    let events = state.serialized_data().unwrap();
    assert_eq!(events.len(), 1);
    assert!(matches!(events[0], GuestEvent::GuestStart { tsc: 42 }));

    // ids keep counting across calls: they are unique for the process
    let b = state.alloc_id();
    assert_eq!(b, 2);

    state.reset();
    assert!(state.serialized_data().is_none());
}
