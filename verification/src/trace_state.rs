//! Guest-side tracing state machine: a monotonically increasing span-id
//! counter, a LIFO stack of open span ids, and an encoder that batches
//! events for the host to consume through the trace-batch action.
//!
//! The original design guards the encoder with a non-blocking lock whose
//! contention is a fatal error; here the state is an explicitly constructed
//! context reached only through `&mut`, so single ownership — the property
//! the lock asserted at run time — holds by construction.

use vstd::prelude::*;

use crate::outb::{EventKeyValue, EventsEncoder, GuestEvent};

verus! {

/// A trace batch read out of guest memory by the host, still serialized.
pub struct TraceBatchInfo {
    /// The serialized bytes of the batch.
    pub serialized_data: Vec<u8>,
}

/// An encoder that batches guest events until they are flushed to the
/// host.
pub struct EventBuffer {
    events: Vec<GuestEvent>,
}

impl EventBuffer {
    /// The events batched so far, oldest first.
    pub closed spec fn events(&self) -> Seq<GuestEvent> {
        self.events@
    }

    /// Create an empty batch.
    pub fn new() -> (e: EventBuffer)
        ensures
            e.events() =~= Seq::<GuestEvent>::empty(),
    {
        EventBuffer { events: Vec::new() }
    }

    /// Append one event to the batch.
    pub fn encode(&mut self, event: GuestEvent)
        ensures
            final(self).events() == old(self).events().push(event),
    {
        self.events.push(event);
    }

    /// The batched events, oldest first.
    pub fn finish(&self) -> (r: &Vec<GuestEvent>)
        ensures
            r@ == self.events(),
    {
        &self.events
    }

    /// Hand the batch off for host consumption and clear it.
    pub fn flush(&mut self)
        ensures
            final(self).events() =~= Seq::<GuestEvent>::empty(),
    {
        self.events.clear();
    }

    /// Discard any batched events.
    pub fn reset(&mut self)
        ensures
            final(self).events() =~= Seq::<GuestEvent>::empty(),
    {
        self.events.clear();
    }
}

impl EventsEncoder for EventBuffer {
    fn encode(&mut self, event: &GuestEvent) {
        EventBuffer::encode(self, event.clone());
    }

    fn finish(&self) -> &Vec<GuestEvent> {
        EventBuffer::finish(self)
    }

    fn flush(&mut self) {
        EventBuffer::flush(self);
    }

    fn reset(&mut self) {
        EventBuffer::reset(self);
    }
}

/// The close events `end_trace` emits for an open-span stack: one
/// `CloseSpan` per entry, popped from the top down, all stamped `tsc`.
pub open spec fn close_events_for_stack(stack: Seq<u64>, tsc: u64) -> Seq<GuestEvent> {
    Seq::new(stack.len(), |i: int| GuestEvent::CloseSpan { id: stack[stack.len() - 1 - i], tsc })
}

/// Internal state of the guest tracing subscriber: the event batch, the
/// next span id to allocate, and the stack of active spans.
pub struct GuestState {
    /// Encoder batching the events of the current guest call.
    encoder: EventBuffer,
    /// Next span id to allocate.
    next_id: u64,
    /// Stack of active span ids, innermost last.
    stack: Vec<u64>,
    /// History of every id handed out, in allocation order.
    ids: Ghost<Seq<u64>>,
}

impl GuestState {
    /// The events batched so far, oldest first.
    pub closed spec fn events(&self) -> Seq<GuestEvent> {
        self.encoder.events()
    }

    /// The stack of active span ids, innermost last.
    pub closed spec fn span_stack(&self) -> Seq<u64> {
        self.stack@
    }

    /// Every id handed out so far, in allocation order.
    pub closed spec fn allocated_ids(&self) -> Seq<u64> {
        self.ids@
    }

    /// The id the next allocation returns.
    pub closed spec fn next_span_id(&self) -> u64 {
        self.next_id
    }

    /// Ids start at 1 and count up one by one: the i-th id handed out is
    /// i + 1, and the counter stands one past the last.
    pub closed spec fn wf(&self) -> bool {
        &&& self.next_id == self.ids@.len() + 1
        &&& forall|i: int| 0 <= i < self.ids@.len() ==> self.ids@[i] == i + 1
    }

    /// The parent a newly opened span records: the innermost active span,
    /// or none when no span is active.
    pub open spec fn spec_parent(&self) -> Option<u64> {
        if self.span_stack().len() > 0 {
            Some(self.span_stack().last())
        } else {
            None
        }
    }

    /// The parent a log event records: the innermost active span, or 0
    /// when no span is active.
    pub open spec fn spec_log_parent(&self) -> u64 {
        if self.span_stack().len() > 0 {
            self.span_stack().last()
        } else {
            0
        }
    }

    /// Create the tracing state for one guest process, batching a
    /// start-of-guest marker stamped with `guest_start_tsc`.
    pub fn new(guest_start_tsc: u64) -> (s: GuestState)
        ensures
            s.wf(),
            s.events() =~= seq![GuestEvent::GuestStart { tsc: guest_start_tsc }],
            s.span_stack() =~= Seq::<u64>::empty(),
            s.allocated_ids() =~= Seq::<u64>::empty(),
            s.next_span_id() == 1,
    {
        let mut encoder = EventBuffer::new();
        encoder.encode(GuestEvent::GuestStart { tsc: guest_start_tsc });
        GuestState { encoder, next_id: 1, stack: Vec::new(), ids: Ghost(Seq::empty()) }
    }

    /// Allocate a new span id: returns the counter and advances it, so
    /// every call hands out a fresh, strictly larger id.
    pub fn alloc_id(&mut self) -> (id: u64)
        requires
            old(self).wf(),
            old(self).next_span_id() < u64::MAX,
        ensures
            final(self).wf(),
            id == old(self).next_span_id(),
            final(self).next_span_id() == id + 1,
            final(self).allocated_ids() == old(self).allocated_ids().push(id),
            final(self).events() == old(self).events(),
            final(self).span_stack() == old(self).span_stack(),
    {
        let n = self.next_id;
        self.next_id = n + 1;
        proof {
            self.ids@ = self.ids@.push(n);
        }
        n
    }

    /// Allocate an id and batch an `OpenSpan` event for it, with the
    /// innermost active span as parent. The stack is not modified; the
    /// span becomes active only when `enter` pushes it.
    pub fn new_span(
        &mut self,
        name: String,
        target: String,
        fields: Vec<EventKeyValue>,
        tsc: u64,
    ) -> (id: u64)
        requires
            old(self).wf(),
            old(self).next_span_id() < u64::MAX,
        ensures
            final(self).wf(),
            id == old(self).next_span_id(),
            final(self).next_span_id() == id + 1,
            final(self).allocated_ids() == old(self).allocated_ids().push(id),
            final(self).span_stack() == old(self).span_stack(),
            final(self).events() == old(self).events().push(
                GuestEvent::OpenSpan {
                    id,
                    parent_id: old(self).spec_parent(),
                    name,
                    target,
                    tsc,
                    fields,
                },
            ),
    {
        let idn = self.alloc_id();
        let parent_id = if self.stack.len() > 0 {
            Some(self.stack[self.stack.len() - 1])
        } else {
            None
        };
        self.encoder.encode(
            GuestEvent::OpenSpan { id: idn, parent_id, name, target, tsc, fields },
        );
        idn
    }

    /// Batch a log event attributed to the innermost active span, or to
    /// parent id 0 when no span is active.
    pub fn event(&mut self, name: String, fields: Vec<EventKeyValue>, tsc: u64)
        ensures
            final(self).wf() == old(self).wf(),
            final(self).span_stack() == old(self).span_stack(),
            final(self).allocated_ids() == old(self).allocated_ids(),
            final(self).next_span_id() == old(self).next_span_id(),
            final(self).events() == old(self).events().push(
                GuestEvent::LogEvent { parent_id: old(self).spec_log_parent(), name, tsc, fields },
            ),
    {
        let parent_id = if self.stack.len() > 0 {
            self.stack[self.stack.len() - 1]
        } else {
            0
        };
        self.encoder.encode(GuestEvent::LogEvent { parent_id, name, tsc, fields });
    }

    /// Batch an `EditSpan` event recording new values for span `s_id`.
    /// The stack is not touched.
    pub fn record(&mut self, s_id: u64, values: Vec<EventKeyValue>)
        ensures
            final(self).wf() == old(self).wf(),
            final(self).span_stack() == old(self).span_stack(),
            final(self).allocated_ids() == old(self).allocated_ids(),
            final(self).next_span_id() == old(self).next_span_id(),
            final(self).events() == old(self).events().push(
                GuestEvent::EditSpan { id: s_id, fields: values },
            ),
    {
        self.encoder.encode(GuestEvent::EditSpan { id: s_id, fields: values });
    }

    /// Enter a span: push it on the active stack.
    pub fn enter(&mut self, id: u64)
        ensures
            final(self).wf() == old(self).wf(),
            final(self).span_stack() == old(self).span_stack().push(id),
            final(self).allocated_ids() == old(self).allocated_ids(),
            final(self).next_span_id() == old(self).next_span_id(),
            final(self).events() == old(self).events(),
    {
        self.stack.push(id);
    }

    /// Exit a span: pop whatever is on top of the stack. The id argument
    /// is not checked against the popped entry; callers are trusted to
    /// keep enter and exit paired.
    pub fn exit(&mut self, _id: u64)
        ensures
            final(self).wf() == old(self).wf(),
            final(self).span_stack() == if old(self).span_stack().len() > 0 {
                old(self).span_stack().drop_last()
            } else {
                old(self).span_stack()
            },
            final(self).allocated_ids() == old(self).allocated_ids(),
            final(self).next_span_id() == old(self).next_span_id(),
            final(self).events() == old(self).events(),
    {
        let _popped = self.stack.pop();
    }

    /// Batch a `CloseSpan` event for span `id`, stamped `tsc`. Always
    /// reports success; the stack is not touched.
    pub fn try_close(&mut self, id: u64, tsc: u64) -> (r: bool)
        ensures
            r == true,
            final(self).wf() == old(self).wf(),
            final(self).span_stack() == old(self).span_stack(),
            final(self).allocated_ids() == old(self).allocated_ids(),
            final(self).next_span_id() == old(self).next_span_id(),
            final(self).events() == old(self).events().push(GuestEvent::CloseSpan { id, tsc }),
    {
        self.encoder.encode(GuestEvent::CloseSpan { id, tsc });
        true
    }

    /// Close the trace: pop every remaining span off the stack and batch
    /// exactly one `CloseSpan` for each, top of the stack first, stamped
    /// `tsc`. Afterwards the stack is empty, so every opened span is
    /// closed exactly once even on abnormal shutdown.
    pub fn end_trace(&mut self, tsc: u64)
        ensures
            final(self).wf() == old(self).wf(),
            final(self).span_stack() =~= Seq::<u64>::empty(),
            final(self).allocated_ids() == old(self).allocated_ids(),
            final(self).next_span_id() == old(self).next_span_id(),
            final(self).events() =~= old(self).events() + close_events_for_stack(
                old(self).span_stack(),
                tsc,
            ),
    {
        while self.stack.len() > 0
            invariant
                self.wf() == old(self).wf(),
                self.allocated_ids() == old(self).allocated_ids(),
                self.next_span_id() == old(self).next_span_id(),
                self.stack@.len() <= old(self).span_stack().len(),
                self.span_stack() =~= old(self).span_stack().take(self.stack@.len() as int),
                self.events() =~= old(self).events() + close_events_for_stack(
                    old(self).span_stack(),
                    tsc,
                ).take(old(self).span_stack().len() - self.stack@.len()),
            decreases self.stack@.len(),
        {
            let ghost m = self.stack@.len() as int;
            let id = self.stack.pop().unwrap();
            proof {
                assert(id == old(self).span_stack()[m - 1]);
                assert(self.stack@ =~= old(self).span_stack().take(m - 1));
            }
            self.encoder.encode(GuestEvent::CloseSpan { id, tsc });
            proof {
                let closes = close_events_for_stack(old(self).span_stack(), tsc);
                let done = old(self).span_stack().len() - m + 1;
                assert(closes[done - 1] == (GuestEvent::CloseSpan { id, tsc }));
                assert(closes.take(done) =~= closes.take(done - 1).push(
                    GuestEvent::CloseSpan { id, tsc },
                ));
            }
        }
        proof {
            assert(close_events_for_stack(old(self).span_stack(), tsc).take(
                old(self).span_stack().len() as int,
            ) =~= close_events_for_stack(old(self).span_stack(), tsc));
        }
    }

    /// Flush the current trace: close every remaining span as `end_trace`
    /// does, then hand the batch off to the host, leaving it empty.
    pub fn flush(&mut self, tsc: u64)
        ensures
            final(self).wf() == old(self).wf(),
            final(self).span_stack() =~= Seq::<u64>::empty(),
            final(self).allocated_ids() == old(self).allocated_ids(),
            final(self).next_span_id() == old(self).next_span_id(),
            final(self).events() =~= Seq::<GuestEvent>::empty(),
    {
        self.end_trace(tsc);
        self.encoder.flush();
    }

    /// Prepare the state for a new guest function call: discard the batch
    /// and open it with a fresh start-of-guest marker stamped `start_tsc`.
    pub fn new_call(&mut self, start_tsc: u64)
        ensures
            final(self).wf() == old(self).wf(),
            final(self).span_stack() == old(self).span_stack(),
            final(self).allocated_ids() == old(self).allocated_ids(),
            final(self).next_span_id() == old(self).next_span_id(),
            final(self).events() =~= seq![GuestEvent::GuestStart { tsc: start_tsc }],
    {
        self.encoder.reset();
        self.encoder.encode(GuestEvent::GuestStart { tsc: start_tsc });
    }

    /// Discard the batch after it has been handed to the host.
    pub fn reset(&mut self)
        ensures
            final(self).wf() == old(self).wf(),
            final(self).span_stack() == old(self).span_stack(),
            final(self).allocated_ids() == old(self).allocated_ids(),
            final(self).next_span_id() == old(self).next_span_id(),
            final(self).events() =~= Seq::<GuestEvent>::empty(),
    {
        self.encoder.reset();
    }

    /// The batched events for host consumption, or none when the batch is
    /// empty.
    pub fn serialized_data(&self) -> (r: Option<&Vec<GuestEvent>>)
        ensures
            match r {
                Some(v) => self.events().len() > 0 && v@ == self.events(),
                None => self.events().len() == 0,
            },
    {
        let data = self.encoder.finish();
        if data.len() == 0 {
            None
        } else {
            Some(data)
        }
    }
}

/// Monotonic ids law: the i-th id handed out is i + 1, so `N` sequential
/// allocations return exactly 1, 2, ..., N — strictly increasing from 1,
/// with no repeats.
pub proof fn lemma_alloc_ids_strictly_increasing(s: &GuestState)
    requires
        s.wf(),
    ensures
        forall|i: int| 0 <= i < s.allocated_ids().len() ==> s.allocated_ids()[i] == i + 1,
        forall|i: int, j: int|
            0 <= i < j < s.allocated_ids().len() ==> s.allocated_ids()[i] < s.allocated_ids()[j],
{
}

/// Stack discipline law: after `end_trace`, the span stack is empty and
/// the batch has grown by exactly one `CloseSpan` per span that was open,
/// each open span appearing exactly once, in top-down stack order.
pub proof fn lemma_end_trace_closes_each_open_span_once(before: Seq<u64>, tsc: u64)
    ensures
        close_events_for_stack(before, tsc).len() == before.len(),
        forall|k: int|
            0 <= k < before.len() ==> #[trigger] close_events_for_stack(before, tsc)[k] == (
            GuestEvent::CloseSpan { id: before[before.len() - 1 - k], tsc }),
{
}

} // verus!
