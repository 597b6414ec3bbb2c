//! Communication channel for DAP message passing between the server
//! thread and the sandbox-owning thread, backed by crossbeam channels.
//!
//! What a receive returns depends on what other threads have sent, so the
//! channel contracts state only what holds of every outcome: which error
//! each operation can report.

use vstd::prelude::*;

use super::errors::DapError;

verus! {

#[verifier::external_type_specification]
#[verifier::external_body]
#[verifier::reject_recursive_types(T)]
pub struct ExSender<T>(crossbeam_channel::Sender<T>);

#[verifier::external_type_specification]
#[verifier::external_body]
#[verifier::reject_recursive_types(T)]
pub struct ExReceiver<T>(crossbeam_channel::Receiver<T>);

#[verifier::external_type_specification]
#[verifier::external_body]
#[verifier::reject_recursive_types(T)]
pub struct ExSendError<T>(crossbeam_channel::SendError<T>);

#[verifier::external_type_specification]
#[verifier::external_body]
pub struct ExRecvError(crossbeam_channel::RecvError);

/// Why a non-blocking receive returned no message.
#[derive(Debug, Clone, Copy, PartialEq, Eq, Structural)]
pub enum ChannelTryRecvError {
    /// No message is currently waiting in the channel.
    Empty,
    /// All senders were dropped and no messages remain.
    Disconnected,
}

/// Relies on crossbeam_channel::unbounded: creates a connected
/// sender/receiver pair for a channel of unlimited capacity.
#[verifier::external_body]
fn channel_unbounded<T>() -> (crossbeam_channel::Sender<T>, crossbeam_channel::Receiver<T>) {
    crossbeam_channel::unbounded()
}

/// Relies on crossbeam_channel::Sender::send: delivers the message unless
/// every receiver was dropped; on an unbounded channel it never blocks.
#[verifier::external_body]
fn sender_send<T>(tx: &crossbeam_channel::Sender<T>, msg: T) -> Result<
    (),
    crossbeam_channel::SendError<T>,
> {
    tx.send(msg)
}

/// Relies on crossbeam_channel::Receiver::recv: blocks until a message
/// arrives, or fails once every sender was dropped and the channel is
/// drained.
#[verifier::external_body]
fn receiver_recv<T>(rx: &crossbeam_channel::Receiver<T>) -> Result<
    T,
    crossbeam_channel::RecvError,
> {
    rx.recv()
}

/// Relies on crossbeam_channel::Receiver::try_recv: returns a waiting
/// message without blocking, or reports the channel empty or
/// disconnected.
#[verifier::external_body]
fn receiver_try_recv<T>(rx: &crossbeam_channel::Receiver<T>) -> Result<T, ChannelTryRecvError> {
    match rx.try_recv() {
        Ok(msg) => Ok(msg),
        Err(crossbeam_channel::TryRecvError::Empty) => Err(ChannelTryRecvError::Empty),
        Err(crossbeam_channel::TryRecvError::Disconnected) => Err(
            ChannelTryRecvError::Disconnected,
        ),
    }
}

/// Relies on crossbeam_channel::Receiver::is_empty: whether no message
/// was waiting at the moment of the call.
#[verifier::external_body]
fn receiver_is_empty<T>(rx: &crossbeam_channel::Receiver<T>) -> bool {
    rx.is_empty()
}

/// Relies on crossbeam_channel::Receiver::len: how many messages were
/// waiting at the moment of the call.
#[verifier::external_body]
fn receiver_len<T>(rx: &crossbeam_channel::Receiver<T>) -> usize {
    rx.len()
}

/// Bidirectional communication channel for DAP messages: this end sends
/// values of type `T` and receives values of type `U`.
#[derive(Debug)]
#[verifier::reject_recursive_types(T)]
#[verifier::reject_recursive_types(U)]
pub struct DapCommChannel<T, U> {
    /// Transmit half, for sending messages.
    tx: crossbeam_channel::Sender<T>,
    /// Receive half, for receiving messages.
    rx: crossbeam_channel::Receiver<U>,
}

impl<T, U> DapCommChannel<T, U> {
    /// Creates a pair of connected unbounded channels: what one end
    /// sends, the other receives.
    pub fn unbounded() -> (DapCommChannel<T, U>, DapCommChannel<U, T>) {
        let (tx_a, rx_b) = channel_unbounded::<T>();
        let (tx_b, rx_a) = channel_unbounded::<U>();
        let channel_a = DapCommChannel { tx: tx_a, rx: rx_a };
        let channel_b = DapCommChannel { tx: tx_b, rx: rx_b };
        (channel_a, channel_b)
    }

    /// Sends a message through the channel; never blocks. Fails with
    /// exactly `ChannelSendError` when the receiving end was dropped.
    pub fn send(&self, msg: T) -> (r: Result<(), DapError>)
        ensures
            r matches Err(e) ==> e matches DapError::ChannelSendError,
    {
        match sender_send(&self.tx, msg) {
            Ok(()) => Ok(()),
            Err(_) => Err(DapError::ChannelSendError),
        }
    }

    /// Receives a message, blocking until one is available. Fails with
    /// exactly `ChannelRecvError` when the sending end was dropped and no
    /// messages remain.
    pub fn recv(&self) -> (r: Result<U, DapError>)
        ensures
            r matches Err(e) ==> e matches DapError::ChannelRecvError,
    {
        match receiver_recv(&self.rx) {
            Ok(msg) => Ok(msg),
            Err(_) => Err(DapError::ChannelRecvError),
        }
    }

    /// Attempts to receive a message without blocking: a waiting message,
    /// or why none was handed out.
    pub fn try_recv(&self) -> Result<U, ChannelTryRecvError> {
        receiver_try_recv(&self.rx)
    }

    /// Whether no message was waiting at the moment of the call.
    pub fn is_empty(&self) -> bool {
        receiver_is_empty(&self.rx)
    }

    /// How many messages were waiting at the moment of the call.
    pub fn len(&self) -> usize {
        receiver_len(&self.rx)
    }
}

} // verus!
