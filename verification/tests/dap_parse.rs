use hyperlight_core::dap::DapError;
use hyperlight_core::dap::messages::{SourceLocation, StopReason};
use hyperlight_core::dap::session::{frame_message, parse_content_length};

#[test]
fn test_parse_content_length() {
    assert_eq!(parse_content_length("Content-Length: 123").unwrap(), 123);
    assert_eq!(parse_content_length("content-length: 456").unwrap(), 456);
    assert_eq!(parse_content_length("Content-Length:789").unwrap(), 789);

    assert!(parse_content_length("").is_err());
    assert!(parse_content_length("Invalid").is_err());
    assert!(parse_content_length("Content-Length: abc").is_err());
}

#[test]
fn parse_content_length_error_messages_name_the_offending_part() {
    let e = parse_content_length("  ").err().unwrap();
    assert_eq!(e.message(), "Failed to parse DAP message: Empty header");

    let e = parse_content_length("Invalid").err().unwrap();
    assert_eq!(e.message(), "Failed to parse DAP message: Invalid header format: Invalid");

    let e = parse_content_length("X-Other: 12").err().unwrap();
    assert_eq!(
        e.message(),
        "Failed to parse DAP message: Expected Content-Length header, got: X-Other"
    );

    let e = parse_content_length("Content-Length: abc").err().unwrap();
    assert_eq!(
        e.message(),
        "Failed to parse DAP message: Invalid Content-Length value:  abc"
    );
}

#[test]
fn parse_content_length_accepts_a_plus_sign_and_rejects_overflow() {
    assert_eq!(parse_content_length("Content-Length: +17").unwrap(), 17);
    assert!(parse_content_length("Content-Length: +").is_err());
    assert!(parse_content_length("Content-Length: -1").is_err());
    assert!(parse_content_length("Content-Length: 99999999999999999999999999").is_err());
    assert_eq!(parse_content_length(" CONTENT-LENGTH : 5 ").unwrap(), 5);
}

#[test]
fn frame_message_prefixes_the_payload_length() {
    assert_eq!(frame_message("{}"), "Content-Length: 2\r\n\r\n{}");
    assert_eq!(frame_message(""), "Content-Length: 0\r\n\r\n");
    let payload = "{\"seq\":1}";
    assert_eq!(frame_message(payload), format!("Content-Length: 9\r\n\r\n{}", payload));
}

#[test]
fn dap_error_constructors_and_messages() {
    let e = DapError::parse("bad json");
    assert_eq!(e.message(), "Failed to parse DAP message: bad json");

    let e = DapError::serialize("no");
    assert_eq!(e.message(), "Failed to serialize DAP message: no");

    let e = DapError::internal("boom");
    assert_eq!(e.message(), "Internal error: boom");

    let e = DapError::invalid_args("launch", "missing field");
    assert_eq!(
        e.message(),
        "Invalid arguments for command 'launch': missing field"
    );

    assert_eq!(DapError::ChannelSendError.message(), "Failed to send message through channel");
    assert_eq!(DapError::ConnectionClosed.message(), "Connection closed");
    let e = DapError::InvalidSequence { expected: 4, actual: -2 };
    assert_eq!(e.message(), "Invalid sequence number: expected 4, got -2");
}

#[test]
fn stop_reason_protocol_strings() {
    assert_eq!(StopReason::Entry.as_str(), "entry");
    assert_eq!(StopReason::Breakpoint.as_str(), "breakpoint");
    assert_eq!(StopReason::Step.as_str(), "step");
    assert_eq!(StopReason::Pause.as_str(), "pause");
    assert_eq!(StopReason::Exception.as_str(), "exception");
    assert_eq!(StopReason::DataBreakpoint.as_str(), "data breakpoint");
    assert_eq!(StopReason::FunctionBreakpoint.as_str(), "function breakpoint");
}

#[test]
fn source_location_builders() {
    let loc = SourceLocation::new("app.js", 12);
    assert_eq!(loc.filename, "app.js");
    assert_eq!(loc.line, 12);
    assert!(loc.function_name.is_none());
    assert!(loc.column.is_none());

    let loc = loc.with_function("main").with_column(3);
    assert_eq!(loc.function_name.as_deref(), Some("main"));
    assert_eq!(loc.column, Some(3));
    assert_eq!(loc.filename, "app.js");
    assert_eq!(loc.line, 12);
}
