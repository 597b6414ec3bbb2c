//! The OutB action dispatcher: the host-side translation of a VM exit on
//! the trap port into one action, and the rendering of a guest log batch
//! entry into a host log record. Decoding is total-or-reject: an
//! unrecognized code is a fatal, typed error, never retried.

use vstd::prelude::*;

use crate::CoreError;
use crate::outb::{GuestEvent, OutBAction};
use crate::structured_log::{fields_view, line, line_spec};

verus! {

/// Why a VM run returned to the host.
#[derive(Debug, Clone, Copy, PartialEq, Eq, Structural)]
pub enum ExitReason {
    /// The guest halted.
    Halt,
    /// The guest wrote `data` to I/O port `port`; on the trap port this
    /// carries an OutB action code.
    IoPortWrite {
        /// The I/O port written.
        port: u16,
        /// The 16-bit value written, the OutB action code.
        data: u16,
    },
    /// The guest faulted on memory.
    MemoryFault,
    /// The hypervisor backend itself failed; fatal for the sandbox.
    BackendError,
}

/// Decode the OutB action a VM exit requests. Only an I/O port write
/// carries one; every other exit reason, and every unrecognized port
/// value, is a typed error that terminates the dispatch.
pub fn outb_action_of_exit(exit: &ExitReason) -> (r: Result<OutBAction, CoreError>)
    ensures
        match exit {
            ExitReason::IoPortWrite { port, data } => match r {
                Ok(a) => OutBAction::is_valid_code(*data) && a.code_spec() == *data,
                Err(e) => !OutBAction::is_valid_code(*data) && e
                    == CoreError::InvalidOutBActionCode(*data),
            },
            _ => r == Err::<OutBAction, CoreError>(CoreError::UnexpectedVmExit),
        },
{
    match exit {
        ExitReason::IoPortWrite { port: _, data } => OutBAction::try_from(*data),
        _ => Err(CoreError::UnexpectedVmExit),
    }
}

/// Render one guest log entry as a host log record: the entry's name as
/// the quoted message, followed by exactly the guest-labeled key/value
/// fields, in their order. Only a log entry can be rendered; every other
/// event kind in a Log payload is a decode error.
pub fn render_guest_log(event: &GuestEvent) -> (r: Result<String, CoreError>)
    ensures
        match event {
            GuestEvent::LogEvent { parent_id, name, tsc, fields } => r matches Ok(record)
                && record@ == line_spec(
                name@,
                None,
                fields_view(
                    Seq::new(fields@.len(), |i: int| (fields@[i].key, fields@[i].value)),
                ),
            ),
            _ => r == Err::<String, CoreError>(CoreError::UnexpectedTraceEvent),
        },
{
    match event {
        GuestEvent::LogEvent { parent_id: _, name, tsc: _, fields } => {
            let mut pairs: Vec<(String, String)> = Vec::new();
            let mut i: usize = 0;
            while i < fields.len()
                invariant
                    i <= fields@.len(),
                    pairs@.len() == i,
                    forall|k: int|
                        0 <= k < i ==> #[trigger] pairs@[k] == (
                            fields@[k].key,
                            fields@[k].value,
                        ),
                decreases fields@.len() - i,
            {
                pairs.push((fields[i].key.clone(), fields[i].value.clone()));
                i = i + 1;
            }
            let record = line(name.as_str(), None, &pairs);
            proof {
                assert(pairs@ =~= Seq::new(
                    fields@.len(),
                    |k: int| (fields@[k].key, fields@[k].value),
                ));
            }
            Ok(record)
        },
        _ => Err(CoreError::UnexpectedTraceEvent),
    }
}

} // verus!
