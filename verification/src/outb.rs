//! The OutB trap protocol: the closed set of action codes a guest may issue
//! on the dedicated I/O port, and the exception codes carried by an Abort
//! payload. Decoding is total-or-reject: every unrecognized code is a typed
//! error, never a fallback.

use vstd::prelude::*;

use crate::CoreError;

verus! {

/// Key-value pair used in tracing spans and events.
#[derive(Debug, Clone)]
pub struct EventKeyValue {
    /// Key of the key-value pair.
    pub key: String,
    /// Value of the key-value pair.
    pub value: String,
}

/// Guest events reported through the trace batch: span lifecycle and log
/// entries, each stamped with the guest's timestamp counter (TSC).
#[derive(Debug, Clone)]
pub enum GuestEvent {
    /// Opening of a new tracing span.
    OpenSpan {
        /// Unique identifier of the span, used to correlate open and close.
        id: u64,
        /// Parent span identifier, when the span is nested.
        parent_id: Option<u64>,
        /// Name of the span.
        name: String,
        /// Target associated with the span.
        target: String,
        /// TSC value when the span was opened.
        tsc: u64,
        /// Additional key-value fields, in insertion order.
        fields: Vec<EventKeyValue>,
    },
    /// Closing of a tracing span.
    CloseSpan {
        /// Identifier of the span being closed.
        id: u64,
        /// TSC value when the span was closed.
        tsc: u64,
    },
    /// A log entry attributed to a span.
    LogEvent {
        /// Identifier of the parent span, or 0 when no span is open.
        parent_id: u64,
        /// Name of the log event.
        name: String,
        /// TSC value when the log event occurred.
        tsc: u64,
        /// Additional key-value fields, in insertion order.
        fields: Vec<EventKeyValue>,
    },
    /// New values recorded for an existing span.
    EditSpan {
        /// Identifier of the span to edit.
        id: u64,
        /// Fields to add or modify.
        fields: Vec<EventKeyValue>,
    },
    /// Start of the guest environment, or of one guest call.
    GuestStart {
        /// TSC value when the guest started.
        tsc: u64,
    },
}

/// Interface for encoding guest events into a batch buffer.
pub trait EventsEncoder {
    /// Encode a single guest event into the encoder's buffer.
    fn encode(&mut self, event: &GuestEvent);

    /// Finalize the encoding process and expose the batched events.
    fn finish(&self) -> &Vec<GuestEvent>;

    /// Flush the encoder's buffer, sending or processing the data.
    fn flush(&mut self);

    /// Reset the encoder's internal state, clearing any buffered data.
    fn reset(&mut self);
}

/// Interface for decoding a serialized buffer into guest events.
pub trait EventsDecoder {
    /// Decode a buffer of bytes into guest events.
    fn decode(&self, buffer: &[u8]) -> Result<Vec<GuestEvent>, CoreError>;
}

/// Exception codes for the x86-64 architecture, carried in an Abort payload
/// to identify the fault that ended guest execution.
#[derive(Debug, Clone, Copy, PartialEq, Eq, Structural)]
pub enum Exception {
    DivideByZero,
    Debug,
    NonMaskableInterrupt,
    Breakpoint,
    Overflow,
    BoundRangeExceeded,
    InvalidOpcode,
    DeviceNotAvailable,
    DoubleFault,
    CoprocessorSegmentOverrun,
    InvalidTSS,
    SegmentNotPresent,
    StackSegmentFault,
    GeneralProtectionFault,
    PageFault,
    Reserved,
    X87FloatingPointException,
    AlignmentCheck,
    MachineCheck,
    SIMDFloatingPointException,
    VirtualizationException,
    SecurityException,
    NoException,
}

impl Exception {
    /// The one-byte encoding of this exception: the x86-64 vector number for
    /// the architectural exceptions, 30 for the security exception, and 0xFF
    /// for the explicit no-exception sentinel.
    pub open spec fn code_spec(self) -> u8 {
        match self {
            Exception::DivideByZero => 0,
            Exception::Debug => 1,
            Exception::NonMaskableInterrupt => 2,
            Exception::Breakpoint => 3,
            Exception::Overflow => 4,
            Exception::BoundRangeExceeded => 5,
            Exception::InvalidOpcode => 6,
            Exception::DeviceNotAvailable => 7,
            Exception::DoubleFault => 8,
            Exception::CoprocessorSegmentOverrun => 9,
            Exception::InvalidTSS => 10,
            Exception::SegmentNotPresent => 11,
            Exception::StackSegmentFault => 12,
            Exception::GeneralProtectionFault => 13,
            Exception::PageFault => 14,
            Exception::Reserved => 15,
            Exception::X87FloatingPointException => 16,
            Exception::AlignmentCheck => 17,
            Exception::MachineCheck => 18,
            Exception::SIMDFloatingPointException => 19,
            Exception::VirtualizationException => 20,
            Exception::SecurityException => 30,
            Exception::NoException => 0xFF,
        }
    }

    /// The bytes that decode to an exception: `0..=20`, `30`, and `0xFF`.
    pub open spec fn is_valid_code(value: u8) -> bool {
        value <= 20 || value == 30 || value == 0xFF
    }

    /// The one-byte encoding of this exception.
    pub fn code(self) -> (c: u8)
        ensures
            c == self.code_spec(),
    {
        match self {
            Exception::DivideByZero => 0,
            Exception::Debug => 1,
            Exception::NonMaskableInterrupt => 2,
            Exception::Breakpoint => 3,
            Exception::Overflow => 4,
            Exception::BoundRangeExceeded => 5,
            Exception::InvalidOpcode => 6,
            Exception::DeviceNotAvailable => 7,
            Exception::DoubleFault => 8,
            Exception::CoprocessorSegmentOverrun => 9,
            Exception::InvalidTSS => 10,
            Exception::SegmentNotPresent => 11,
            Exception::StackSegmentFault => 12,
            Exception::GeneralProtectionFault => 13,
            Exception::PageFault => 14,
            Exception::Reserved => 15,
            Exception::X87FloatingPointException => 16,
            Exception::AlignmentCheck => 17,
            Exception::MachineCheck => 18,
            Exception::SIMDFloatingPointException => 19,
            Exception::VirtualizationException => 20,
            Exception::SecurityException => 30,
            Exception::NoException => 0xFF,
        }
    }

    /// Decode one payload byte. Succeeds exactly on the valid codes and
    /// returns the exception whose encoding is that byte; every other byte
    /// is a typed decode error.
    pub fn try_from(value: u8) -> (r: Result<Exception, CoreError>)
        ensures
            match r {
                Ok(e) => Self::is_valid_code(value) && e.code_spec() == value,
                Err(err) => !Self::is_valid_code(value) && err
                    == CoreError::UnknownExceptionCode(value),
            },
    {
        match value {
            0 => Ok(Exception::DivideByZero),
            1 => Ok(Exception::Debug),
            2 => Ok(Exception::NonMaskableInterrupt),
            3 => Ok(Exception::Breakpoint),
            4 => Ok(Exception::Overflow),
            5 => Ok(Exception::BoundRangeExceeded),
            6 => Ok(Exception::InvalidOpcode),
            7 => Ok(Exception::DeviceNotAvailable),
            8 => Ok(Exception::DoubleFault),
            9 => Ok(Exception::CoprocessorSegmentOverrun),
            10 => Ok(Exception::InvalidTSS),
            11 => Ok(Exception::SegmentNotPresent),
            12 => Ok(Exception::StackSegmentFault),
            13 => Ok(Exception::GeneralProtectionFault),
            14 => Ok(Exception::PageFault),
            15 => Ok(Exception::Reserved),
            16 => Ok(Exception::X87FloatingPointException),
            17 => Ok(Exception::AlignmentCheck),
            18 => Ok(Exception::MachineCheck),
            19 => Ok(Exception::SIMDFloatingPointException),
            20 => Ok(Exception::VirtualizationException),
            30 => Ok(Exception::SecurityException),
            0xFF => Ok(Exception::NoException),
            _ => Err(CoreError::UnknownExceptionCode(value)),
        }
    }
}

/// Actions a guest may request by writing a 16-bit code to the OutB port:
/// logging, a host function call, an abort, a debug print, and the trace
/// reporting actions.
#[derive(Debug, Clone, Copy, PartialEq, Eq, Structural)]
pub enum OutBAction {
    /// Emit a host-side log record from guest-labeled key-value data.
    Log,
    /// Synchronously invoke a host-registered function.
    CallFunction,
    /// Abort guest execution, surfacing an exception code.
    Abort,
    /// Forward raw guest bytes to host-side output.
    DebugPrint,
    /// Report a batch of spans and events from the guest.
    TraceBatch,
    /// Record a guest memory allocation for profiling.
    TraceMemoryAlloc,
    /// Record a guest memory free for profiling.
    TraceMemoryFree,
}

impl OutBAction {
    /// The 16-bit port code that selects this action.
    pub open spec fn code_spec(self) -> u16 {
        match self {
            OutBAction::Log => 99,
            OutBAction::CallFunction => 101,
            OutBAction::Abort => 102,
            OutBAction::DebugPrint => 103,
            OutBAction::TraceBatch => 104,
            OutBAction::TraceMemoryAlloc => 105,
            OutBAction::TraceMemoryFree => 106,
        }
    }

    /// The 16-bit codes that decode to an action: 99, 101, 102, 103, and the
    /// trace codes 104, 105, 106.
    pub open spec fn is_valid_code(val: u16) -> bool {
        val == 99 || val == 101 || val == 102 || val == 103 || val == 104 || val == 105 || val
            == 106
    }

    /// Decode one 16-bit port code. Succeeds exactly on the recognized codes
    /// and returns the action selected by that code; every other value is a
    /// fatal decode error.
    pub fn try_from(val: u16) -> (r: Result<OutBAction, CoreError>)
        ensures
            match r {
                Ok(a) => Self::is_valid_code(val) && a.code_spec() == val,
                Err(err) => !Self::is_valid_code(val) && err == CoreError::InvalidOutBActionCode(
                    val,
                ),
            },
    {
        match val {
            99 => Ok(OutBAction::Log),
            101 => Ok(OutBAction::CallFunction),
            102 => Ok(OutBAction::Abort),
            103 => Ok(OutBAction::DebugPrint),
            104 => Ok(OutBAction::TraceBatch),
            105 => Ok(OutBAction::TraceMemoryAlloc),
            106 => Ok(OutBAction::TraceMemoryFree),
            _ => Err(CoreError::InvalidOutBActionCode(val)),
        }
    }
}

} // verus!
