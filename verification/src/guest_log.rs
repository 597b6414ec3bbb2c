//! The guest-side logger's event construction: every record the guest
//! logs becomes a trace batch entry with a fixed set of labeled fields,
//! which the host-side dispatcher renders back into a log record.

use vstd::prelude::*;
use vstd::string::StringExecFns;

use crate::outb::{EventKeyValue, GuestEvent};
use crate::structured_log::{dec_digits, render_u64};

verus! {

/// Build the trace batch entry for one guest log record: a log event
/// with no parent span and no timestamp, carrying exactly the fields
/// `level`, `module`, `target`, `file`, `line` and `message`, in that
/// order, with the record's message doubling as the event name.
pub fn build_log_event(
    message: &str,
    level: &str,
    module: &str,
    target: &str,
    file: &str,
    line: u32,
) -> (ev: GuestEvent)
    ensures
        ev matches GuestEvent::LogEvent { parent_id, name, tsc, fields } && {
            &&& parent_id == 0
            &&& name@ == message@
            &&& tsc == 0
            &&& fields@.len() == 6
            &&& fields@[0].key@ == "level"@ && fields@[0].value@ == level@
            &&& fields@[1].key@ == "module"@ && fields@[1].value@ == module@
            &&& fields@[2].key@ == "target"@ && fields@[2].value@ == target@
            &&& fields@[3].key@ == "file"@ && fields@[3].value@ == file@
            &&& fields@[4].key@ == "line"@ && fields@[4].value@ == dec_digits(line as nat)
            &&& fields@[5].key@ == "message"@ && fields@[5].value@ == message@
        },
{
    let fields = vec![
        EventKeyValue { key: "level".to_owned(), value: level.to_owned() },
        EventKeyValue { key: "module".to_owned(), value: module.to_owned() },
        EventKeyValue { key: "target".to_owned(), value: target.to_owned() },
        EventKeyValue { key: "file".to_owned(), value: file.to_owned() },
        EventKeyValue { key: "line".to_owned(), value: render_u64(line as u64) },
        EventKeyValue { key: "message".to_owned(), value: message.to_owned() },
    ];
    GuestEvent::LogEvent { parent_id: 0, name: message.to_owned(), tsc: 0, fields }
}

} // verus!
