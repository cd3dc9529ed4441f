//! The trusted boundary to the standard library's synchronous channels, which
//! carry the envelopes and the responses between tasks. The queue itself is a
//! bounded FIFO owned by the runtime; everything stated about it here is what
//! the standard library documents, and nothing more: delivery order, blocking
//! and timing are concurrent behaviour that only the scenario tests observe.

use vstd::prelude::*;
use std::sync::mpsc::{Receiver, Sender, SyncSender};

verus! {

#[verifier::external_type_specification]
#[verifier::external_body]
#[verifier::reject_recursive_types(T)]
pub struct ExSyncSender<T>(SyncSender<T>);

#[verifier::external_type_specification]
#[verifier::external_body]
#[verifier::reject_recursive_types(T)]
pub struct ExSender<T>(Sender<T>);

#[verifier::external_type_specification]
#[verifier::external_body]
#[verifier::reject_recursive_types(T)]
pub struct ExReceiver<T>(Receiver<T>);

/// The outcome of a bounded wait on a receiving end: a value arrived in time,
/// the wait elapsed with nothing there, or the channel is closed and drained.
pub enum RecvOutcome<T> {
    Received(T),
    TimedOut,
    Closed,
}

/// Relies on std::sync::mpsc::sync_channel: creates a bounded FIFO channel
/// that holds at most `capacity` values; a send on a full channel blocks until
/// space frees up.
#[verifier::external_body]
pub(crate) fn bounded_channel<T>(capacity: usize) -> (r: (SyncSender<T>, Receiver<T>))
    requires
        capacity >= 1,
{
    std::sync::mpsc::sync_channel(capacity)
}

/// Relies on SyncSender::clone: another handle to the same sending side.
#[verifier::external_body]
pub(crate) fn clone_sync_sender<T>(sender: &SyncSender<T>) -> (r: SyncSender<T>) {
    sender.clone()
}

/// Relies on SyncSender::send: blocks while the channel is at capacity, and
/// hands the message back when the receiving side has been dropped. While the
/// channel stays full and open this call does not return; the enqueue step is
/// deliberately not bounded by the caller's timeout.
#[verifier::external_body]
pub(crate) fn queue_send<T>(sender: &SyncSender<T>, message: T) -> (r: Result<(), T>)
    ensures
        r matches Err(m) ==> m == message,
{
    match sender.send(message) {
        Ok(()) => Ok(()),
        Err(std::sync::mpsc::SendError(m)) => Err(m),
    }
}

/// Relies on std::sync::mpsc::channel: creates the unbounded channel a single
/// response travels back on.
#[verifier::external_body]
pub(crate) fn completion_channel<T>() -> (r: (Sender<T>, Receiver<T>)) {
    std::sync::mpsc::channel()
}

/// Relies on Sender::send: delivers the response unless the receiving side is
/// gone. Consuming the sender keeps a completion channel single-use: once a
/// response is written, no second one can follow it. The result reports
/// whether a receiver was still there; a failed delivery is a no-op.
#[verifier::external_body]
pub(crate) fn reply_send<T>(sender: Sender<T>, response: T) -> (delivered: bool) {
    sender.send(response).is_ok()
}

/// Relies on Receiver::recv_timeout: waits at most `timeout_ms` milliseconds
/// for the next value. Which outcome comes back depends on scheduling, so
/// nothing is promised of it; `Closed` is only reported once every sending
/// handle is dropped and the channel is drained.
#[verifier::external_body]
pub(crate) fn recv_with_timeout<T>(receiver: &Receiver<T>, timeout_ms: u64) -> (outcome: RecvOutcome<T>) {
    match receiver.recv_timeout(std::time::Duration::from_millis(timeout_ms)) {
        Ok(value) => RecvOutcome::Received(value),
        Err(std::sync::mpsc::RecvTimeoutError::Timeout) => RecvOutcome::TimedOut,
        Err(std::sync::mpsc::RecvTimeoutError::Disconnected) => RecvOutcome::Closed,
    }
}

} // verus!
