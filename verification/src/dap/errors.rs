//! Error types for the debug-adapter front end.

use vstd::prelude::*;
use vstd::string::StringExecFns;

use crate::structured_log::{dec_int, render_i64};

verus! {

/// Errors that can occur in the DAP server.
#[derive(Debug, Clone)]
pub enum DapError {
    /// Failed to bind to the specified address/port.
    BindError(String),
    /// Failed to accept a connection; carries the I/O error's text.
    AcceptError(String),
    /// Error parsing a DAP message.
    ParseError(String),
    /// Error serializing a DAP message.
    SerializeError(String),
    /// Error sending a message through the channel.
    ChannelSendError,
    /// Error receiving a message from the channel.
    ChannelRecvError,
    /// Received an unexpected message type.
    UnexpectedMessage(String),
    /// The debug session is not initialized.
    NotInitialized,
    /// The debug session has already been initialized.
    AlreadyInitialized,
    /// Invalid request sequence number.
    InvalidSequence { expected: i64, actual: i64 },
    /// Unknown command received.
    UnknownCommand(String),
    /// Invalid arguments for a command.
    InvalidArguments { command: String, reason: String },
    /// Operation not supported.
    NotSupported(String),
    /// The connection was closed.
    ConnectionClosed,
    /// Timeout waiting for response.
    Timeout,
    /// Internal error.
    Internal(String),
}

impl DapError {
    /// The exact text `message` renders for this error.
    pub open spec fn message_spec(&self) -> Seq<char> {
        match self {
            DapError::BindError(m) => "Failed to bind to address: "@ + m@,
            DapError::AcceptError(m) => "Failed to accept connection: "@ + m@,
            DapError::ParseError(m) => "Failed to parse DAP message: "@ + m@,
            DapError::SerializeError(m) => "Failed to serialize DAP message: "@ + m@,
            DapError::ChannelSendError => "Failed to send message through channel"@,
            DapError::ChannelRecvError => "Failed to receive message from channel"@,
            DapError::UnexpectedMessage(m) => "Received unexpected message: "@ + m@,
            DapError::NotInitialized => "Debug session not initialized"@,
            DapError::AlreadyInitialized => "Debug session already initialized"@,
            DapError::InvalidSequence { expected, actual } => "Invalid sequence number: expected "@
                + dec_int(*expected as int) + ", got "@ + dec_int(*actual as int),
            DapError::UnknownCommand(m) => "Unknown command: "@ + m@,
            DapError::InvalidArguments { command, reason } => "Invalid arguments for command '"@
                + command@ + "': "@ + reason@,
            DapError::NotSupported(m) => "Operation not supported: "@ + m@,
            DapError::ConnectionClosed => "Connection closed"@,
            DapError::Timeout => "Timeout waiting for response"@,
            DapError::Internal(m) => "Internal error: "@ + m@,
        }
    }

    /// Render this error as the text a log line or an error response
    /// carries.
    pub fn message(&self) -> (s: String)
        ensures
            s@ == self.message_spec(),
    {
        match self {
            DapError::BindError(m) => {
                let mut out: String = "Failed to bind to address: ".to_owned();
                out.append(m.as_str());
                out
            },
            DapError::AcceptError(m) => {
                let mut out: String = "Failed to accept connection: ".to_owned();
                out.append(m.as_str());
                out
            },
            DapError::ParseError(m) => {
                let mut out: String = "Failed to parse DAP message: ".to_owned();
                out.append(m.as_str());
                out
            },
            DapError::SerializeError(m) => {
                let mut out: String = "Failed to serialize DAP message: ".to_owned();
                out.append(m.as_str());
                out
            },
            DapError::ChannelSendError => "Failed to send message through channel".to_owned(),
            DapError::ChannelRecvError => "Failed to receive message from channel".to_owned(),
            DapError::UnexpectedMessage(m) => {
                let mut out: String = "Received unexpected message: ".to_owned();
                out.append(m.as_str());
                out
            },
            DapError::NotInitialized => "Debug session not initialized".to_owned(),
            DapError::AlreadyInitialized => "Debug session already initialized".to_owned(),
            DapError::InvalidSequence { expected, actual } => {
                let mut out: String = "Invalid sequence number: expected ".to_owned();
                out.append(render_i64(*expected).as_str());
                out.append(", got ");
                out.append(render_i64(*actual).as_str());
                out
            },
            DapError::UnknownCommand(m) => {
                let mut out: String = "Unknown command: ".to_owned();
                out.append(m.as_str());
                out
            },
            DapError::InvalidArguments { command, reason } => {
                let mut out: String = "Invalid arguments for command '".to_owned();
                out.append(command.as_str());
                out.append("': ");
                out.append(reason.as_str());
                out
            },
            DapError::NotSupported(m) => {
                let mut out: String = "Operation not supported: ".to_owned();
                out.append(m.as_str());
                out
            },
            DapError::ConnectionClosed => "Connection closed".to_owned(),
            DapError::Timeout => "Timeout waiting for response".to_owned(),
            DapError::Internal(m) => "Internal error: ".to_owned().concat(m.as_str()),
        }
    }

    /// Creates a parse error with the given message.
    pub fn parse(msg: &str) -> (r: DapError)
        ensures
            r matches DapError::ParseError(m) && m@ == msg@,
    {
        DapError::ParseError(msg.to_owned())
    }

    /// Creates a serialize error with the given message.
    pub fn serialize(msg: &str) -> (r: DapError)
        ensures
            r matches DapError::SerializeError(m) && m@ == msg@,
    {
        DapError::SerializeError(msg.to_owned())
    }

    /// Creates an internal error with the given message.
    pub fn internal(msg: &str) -> (r: DapError)
        ensures
            r matches DapError::Internal(m) && m@ == msg@,
    {
        DapError::Internal(msg.to_owned())
    }

    /// Creates an invalid arguments error.
    pub fn invalid_args(command: &str, reason: &str) -> (r: DapError)
        ensures
            r matches DapError::InvalidArguments { command: c, reason: m } && c@ == command@ && m@
                == reason@,
    {
        DapError::InvalidArguments { command: command.to_owned(), reason: reason.to_owned() }
    }
}

} // verus!
