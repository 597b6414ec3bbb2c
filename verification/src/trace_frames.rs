//! The byte layout of memory-profiling trace frames: each frame is a
//! 16-byte little-endian timestamp, an 8-byte frame type id, and a
//! type-specific payload; an allocation or free payload is the pointer,
//! the amount, and the unwound call stack, length-prefixed. Encoding is
//! specified byte for byte; writing the frames to the trace file is left
//! to the caller.

use vstd::prelude::*;
use vstd::bytes::{spec_u64_to_le_bytes, spec_u128_to_le_bytes, u64_to_le_bytes, u128_to_le_bytes};

verus! {

/// The kind of profiling frame being recorded.
#[derive(Debug, Clone, Copy, PartialEq, Eq, Structural)]
pub enum TraceFrameType {
    /// A frame that records a memory allocation.
    MemAlloc,
    /// A frame that records a memory free.
    MemFree,
}

impl TraceFrameType {
    /// The frame type id written into the trace file.
    pub open spec fn frame_id_spec(self) -> u64 {
        match self {
            TraceFrameType::MemAlloc => 2,
            TraceFrameType::MemFree => 3,
        }
    }

    /// The frame type id written into the trace file.
    pub fn frame_id(self) -> (id: u64)
        ensures
            id == self.frame_id_spec(),
    {
        match self {
            TraceFrameType::MemAlloc => 2,
            TraceFrameType::MemFree => 3,
        }
    }
}

/// The bytes of an unwound stack: its length as a little-endian 8-byte
/// count, then each return address as 8 little-endian bytes, in order.
pub open spec fn stack_bytes_spec(stack: Seq<u64>) -> Seq<u8>
    decreases stack.len(),
{
    if stack.len() == 0 {
        Seq::empty()
    } else {
        stack_bytes_spec(stack.drop_last()) + spec_u64_to_le_bytes(stack.last())
    }
}

/// The bytes of one whole trace frame: the timestamp, the frame type id,
/// and the payload.
pub open spec fn trace_frame_spec(
    timestamp_micros: u128,
    frame_id: u64,
    payload: Seq<u8>,
) -> Seq<u8> {
    spec_u128_to_le_bytes(timestamp_micros) + spec_u64_to_le_bytes(frame_id) + payload
}

/// Encode an unwound call stack: the frame count, then every frame, in
/// order, each as 8 little-endian bytes.
pub fn encode_stack(stack: &Vec<u64>) -> (out: Vec<u8>)
    ensures
        out@ == spec_u64_to_le_bytes(stack@.len() as u64) + stack_bytes_spec(stack@),
        stack@.len() <= u64::MAX,
{
    let mut out = u64_to_le_bytes(stack.len() as u64);
    let ghost prefix = out@;
    let mut i: usize = 0;
    while i < stack.len()
        invariant
            i <= stack@.len(),
            out@ =~= prefix + stack_bytes_spec(stack@.take(i as int)),
        decreases stack@.len() - i,
    {
        let mut frame = u64_to_le_bytes(stack[i]);
        out.append(&mut frame);
        i = i + 1;
        proof {
            assert(stack@.take(i as int).drop_last() =~= stack@.take(i - 1));
            assert(stack@.take(i as int).last() == stack@[i - 1]);
        }
    }
    proof {
        assert(stack@.take(stack@.len() as int) =~= stack@);
        assert(out@ =~= spec_u64_to_le_bytes(stack@.len() as u64) + stack_bytes_spec(stack@));
    }
    out
}

/// Encode one whole trace frame from its timestamp, frame type id, and
/// already-encoded payload.
pub fn encode_trace_frame(timestamp_micros: u128, frame_id: u64, payload: &Vec<u8>) -> (out: Vec<
    u8,
>)
    ensures
        out@ == trace_frame_spec(timestamp_micros, frame_id, payload@),
{
    let mut out = u128_to_le_bytes(timestamp_micros);
    let mut id_bytes = u64_to_le_bytes(frame_id);
    out.append(&mut id_bytes);
    let mut i: usize = 0;
    let ghost prefix = out@;
    while i < payload.len()
        invariant
            i <= payload@.len(),
            out@ =~= prefix + payload@.take(i as int),
        decreases payload@.len() - i,
    {
        out.push(payload[i]);
        i = i + 1;
    }
    proof {
        assert(payload@.take(payload@.len() as int) =~= payload@);
        assert(out@ =~= trace_frame_spec(timestamp_micros, frame_id, payload@));
    }
    out
}

/// Encode the payload of an allocation or free frame: the pointer, the
/// amount, then the unwound stack.
pub fn encode_mem_frame_payload(ptr: u64, amount: u64, stack: &Vec<u64>) -> (out: Vec<u8>)
    ensures
        out@ == spec_u64_to_le_bytes(ptr) + spec_u64_to_le_bytes(amount) + spec_u64_to_le_bytes(
            stack@.len() as u64,
        ) + stack_bytes_spec(stack@),
{
    let mut out = u64_to_le_bytes(ptr);
    let mut amount_bytes = u64_to_le_bytes(amount);
    out.append(&mut amount_bytes);
    let mut stack_bytes = encode_stack(stack);
    out.append(&mut stack_bytes);
    proof {
        assert(out@ =~= spec_u64_to_le_bytes(ptr) + spec_u64_to_le_bytes(amount)
            + spec_u64_to_le_bytes(stack@.len() as u64) + stack_bytes_spec(stack@));
    }
    out
}

} // verus!
