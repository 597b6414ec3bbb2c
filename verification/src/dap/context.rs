//! Debug context shared between the registered host function and the
//! sandbox: it holds the channel to the DAP server once a debugger is
//! attached, and routes debug breaks to it.

use vstd::prelude::*;

use super::comm::DapCommChannel;
use super::host_funcs::{DebugAction, DebugActionType, DebugBreakEvent, handle_debug_break};
use super::messages::{DapRequest, DapResponse};

verus! {

/// Context for debug-adapter support. The channel is absent until sandbox
/// evolution connects a debugger; before that, every debug break simply
/// continues.
pub struct DapContext {
    /// The DAP communication channel, set during sandbox evolution.
    channel: Option<DapCommChannel<DapResponse, DapRequest>>,
}

impl DapContext {
    /// Whether a debugger channel has been connected.
    pub closed spec fn spec_connected(&self) -> bool {
        self.channel is Some
    }

    /// Creates a new empty debug context, with no debugger connected.
    pub fn new() -> (c: DapContext)
        ensures
            !c.spec_connected(),
    {
        DapContext { channel: None }
    }

    /// Sets the DAP channel; called during sandbox evolution.
    pub fn set_channel(&mut self, channel: DapCommChannel<DapResponse, DapRequest>)
        ensures
            final(self).spec_connected(),
    {
        self.channel = Some(channel);
    }

    /// Checks if the DAP channel is connected.
    pub fn is_connected(&self) -> (b: bool)
        ensures
            b == self.spec_connected(),
    {
        self.channel.is_some()
    }

    /// Handles a debug break event from the guest: routes it to the
    /// debugger when one is connected, and otherwise tells the guest to
    /// continue with no breakpoint changes. Whatever the debugger
    /// decided, every breakpoint handed back was set enabled.
    pub fn handle_break(&self, event: DebugBreakEvent) -> (action: DebugAction)
        ensures
            !self.spec_connected() ==> action.action == DebugActionType::Continue
                && action.breakpoints@.len() == 0,
            forall|i: int|
                0 <= i < action.breakpoints@.len() ==> (
                #[trigger] action.breakpoints@[i]).enabled,
    {
        match &self.channel {
            Some(channel) => handle_debug_break(channel, event),
            None => DebugAction { action: DebugActionType::Continue, breakpoints: Vec::new() },
        }
    }
}

} // verus!
