//! The correlated request/reply primitive: many producers submit requests into
//! one bounded FIFO queue, a single consumer drains it, applies a strategy to
//! each request, and answers on the per-request completion channel the
//! producer is waiting on.

use vstd::prelude::*;
use std::sync::atomic::{AtomicBool, Ordering};
use std::sync::Arc;
use std::sync::mpsc::{Receiver, SyncSender};
use super::message::Message;
use super::payload::{Request, Response};
use super::queue::{
    bounded_channel, clone_sync_sender, completion_channel, queue_send, recv_with_timeout,
    reply_send, RecvOutcome,
};

verus! {

/// How long the consumer waits for the next envelope before re-checking the
/// running signal, in milliseconds. Shutdown latency is bounded by this.
pub const POLL_INTERVAL_MS: u64 = 500;

/// Why a send returned no response.
#[derive(Debug, Clone, Copy, PartialEq, Eq, Structural)]
pub enum SendError {
    /// The receiving side of the queue is gone; nothing can be delivered any
    /// more. The channel cannot recover from this.
    ChannelClosed,
    /// The wait for the response exceeded the caller's bound. The request
    /// stays logically orphaned: a response the consumer writes later is
    /// silently discarded.
    Timeout,
    /// The completion channel was closed without a response ever being
    /// written: the request was abandoned. A defect signal, not expected in
    /// normal operation.
    LostResponse,
}

/// The sending side of a bounded FIFO queue of envelopes, from which any
/// number of producer handles can be made.
#[verifier::reject_recursive_types(REQ)]
#[verifier::reject_recursive_types(RES)]
pub struct RequestReplyChannel<REQ, RES> where REQ: Request, RES: Response {
    sender: SyncSender<Message<REQ, RES>>,
}

impl<REQ, RES> RequestReplyChannel<REQ, RES> where REQ: Request, RES: Response {
    /// Creates a FIFO queue holding at most `size` envelopes in flight and
    /// splits it into the cloneable sending side and the single receiving
    /// side that exactly one consumer owns.
    pub fn new(size: usize) -> (r: (Self, Receiver<Message<REQ, RES>>))
        requires
            size >= 1,
    {
        let (sender, receiver) = bounded_channel(size);
        (Self { sender }, receiver)
    }

    /// Yields another producer handle sharing the same sending side.
    pub fn new_producer(&self) -> Producer<REQ, RES> {
        Producer::new(clone_sync_sender(&self.sender))
    }
}

/// A handle that submits requests and awaits the matching responses. Any
/// number of producers may share one queue.
#[verifier::reject_recursive_types(REQ)]
#[verifier::reject_recursive_types(RES)]
pub struct Producer<REQ, RES> where REQ: Request, RES: Response {
    sender: SyncSender<Message<REQ, RES>>,
}

/// Maps the outcome of the bounded wait on a completion channel to the
/// producer's result, exactly: a response that arrived in time is the
/// success; a completion channel closed without a response means the request
/// was abandoned, `LostResponse`; an elapsed wait is a `Timeout`.
pub fn resolve_wait_outcome<RES: Response>(outcome: RecvOutcome<RES>) -> (r: Result<RES, SendError>)
    ensures
        (outcome matches RecvOutcome::Received(response) ==> r == Ok::<RES, SendError>(response)),
        (outcome is Closed ==> r == Err::<RES, SendError>(SendError::LostResponse)),
        (outcome is TimedOut ==> r == Err::<RES, SendError>(SendError::Timeout)),
{
    match outcome {
        RecvOutcome::Received(response) => Ok(response),
        RecvOutcome::Closed => Err(SendError::LostResponse),
        RecvOutcome::TimedOut => Err(SendError::Timeout),
    }
}

impl<REQ, RES> Producer<REQ, RES> where REQ: Request, RES: Response {
    /// The sending side this producer submits its envelopes on.
    pub closed spec fn sender_view(self) -> SyncSender<Message<REQ, RES>> {
        self.sender
    }

    /// Wraps a sending side in a producer handle: the handle submits on
    /// exactly the sending side it was given.
    pub fn new(sender: SyncSender<Message<REQ, RES>>) -> (r: Self)
        ensures
            r.sender_view() == sender,
    {
        Self { sender }
    }

    /// Submits a request and awaits exactly its own response for at most
    /// `timeout_ms` milliseconds after the enqueue. Enqueuing blocks while
    /// the queue is at capacity — backpressure, deliberately not bounded by
    /// the timeout; a queue whose receiving side is gone fails at once with
    /// `ChannelClosed`. The wait's outcome becomes the result as
    /// `resolve_wait_outcome` states; which outcome occurs depends on the
    /// consumer and the scheduler, so only the range is promised here.
    pub fn send(&self, request: REQ, timeout_ms: u64) -> (r: Result<RES, SendError>)
        ensures
            r matches Err(e) ==> (e == SendError::ChannelClosed || e == SendError::Timeout
                || e == SendError::LostResponse),
    {
        let (reply_sender, reply_receiver) = completion_channel();
        let message = Message::new(request, reply_sender);

        match queue_send(&self.sender, message) {
            Err(_) => Err(SendError::ChannelClosed),
            Ok(()) => {
                let outcome = recv_with_timeout(&reply_receiver, timeout_ms);
                resolve_wait_outcome(outcome)
            },
        }
    }
}

/// What the consumer does after one bounded poll of the queue.
#[verifier::reject_recursive_types(REQ)]
#[verifier::reject_recursive_types(RES)]
pub enum ConsumerAction<REQ, RES> where REQ: Request, RES: Response {
    /// An envelope arrived: apply the strategy and answer on its completion
    /// channel.
    Reply(Message<REQ, RES>),
    /// The poll elapsed with nothing queued: go back and re-check the running
    /// signal.
    KeepPolling,
    /// Every producer handle is gone and the queue is drained: end the loop.
    Shutdown,
}

/// Maps the outcome of one bounded poll of the queue to the consumer's next
/// action, exactly.
pub fn plan_poll<REQ, RES>(
    outcome: RecvOutcome<Message<REQ, RES>>,
) -> (action: ConsumerAction<REQ, RES>) where REQ: Request, RES: Response
    ensures
        (outcome matches RecvOutcome::Received(m) ==> action == ConsumerAction::<REQ, RES>::Reply(
            m,
        )),
        (outcome is TimedOut ==> action == ConsumerAction::<REQ, RES>::KeepPolling),
        (outcome is Closed ==> action == ConsumerAction::<REQ, RES>::Shutdown),
{
    match outcome {
        RecvOutcome::Received(message) => ConsumerAction::Reply(message),
        RecvOutcome::TimedOut => ConsumerAction::KeepPolling,
        RecvOutcome::Closed => ConsumerAction::Shutdown,
    }
}

/// The correlation step of the consumer: the response written back for a
/// dequeued envelope is the strategy's own output for exactly that envelope's
/// request, never an answer computed from some other envelope.
pub fn apply_strategy<REQ, RES, F: Fn(&Message<REQ, RES>) -> RES>(
    message: &Message<REQ, RES>,
    strategy: &F,
) -> (response: RES) where REQ: Request, RES: Response
    requires
        call_requires(*strategy, (message,)),
    ensures
        call_ensures(*strategy, (message,), response),
{
    strategy(message)
}

/// The single task that drains the queue sequentially and computes responses
/// via a caller-supplied strategy.
#[verifier::reject_recursive_types(REQ)]
#[verifier::reject_recursive_types(RES)]
pub struct Consumer<REQ, RES> where REQ: Request, RES: Response {
    receiver: Receiver<Message<REQ, RES>>,
}

impl<REQ, RES> Consumer<REQ, RES> where REQ: Request, RES: Response {
    /// The receiving side this consumer drains.
    pub closed spec fn receiver_view(self) -> Receiver<Message<REQ, RES>> {
        self.receiver
    }

    /// Takes exclusive ownership of the receiving side of a queue: the
    /// consumer drains exactly the receiving side it was given.
    pub fn new(receiver: Receiver<Message<REQ, RES>>) -> (r: Self)
        ensures
            r.receiver_view() == receiver,
    {
        Self { receiver }
    }

    /// Runs the processing loop while the running signal reads true: waits at
    /// most `POLL_INTERVAL_MS` for the next envelope, so the signal is
    /// re-checked at bounded latency even when the queue is idle; applies the
    /// strategy to each dequeued envelope and writes the result into its
    /// completion channel. A delivery whose waiter already gave up is a
    /// best-effort no-op. The loop ends when the signal is cleared or when
    /// the queue is closed and drained; the strategy is assumed total, so it
    /// must accept every envelope. The loop's termination measure is an
    /// explicit poll budget of `u64::MAX` iterations — at one bounded poll
    /// per iteration it is inexhaustible in practice.
    pub fn consume<F: Fn(&Message<REQ, RES>) -> RES>(
        &mut self,
        strategy: F,
        running_signal: Arc<AtomicBool>,
    )
        requires
            forall|m: Message<REQ, RES>| call_requires(strategy, (&m,)),
        ensures
            *final(self) == *old(self),
    {
        let mut poll_budget: u64 = u64::MAX;
        while poll_budget > 0 && running_signal.load(Ordering::Relaxed)
            invariant
                forall|m: Message<REQ, RES>| call_requires(strategy, (&m,)),
                *self == *old(self),
            decreases poll_budget,
        {
            poll_budget = poll_budget - 1;
            let outcome = recv_with_timeout(&self.receiver, POLL_INTERVAL_MS);
            match plan_poll(outcome) {
                ConsumerAction::Reply(message) => {
                    let response = apply_strategy(&message, &strategy);
                    let Message { request: _, response_channel } = message;
                    let _ = reply_send(response_channel, response);
                },
                ConsumerAction::KeepPolling => {},
                ConsumerAction::Shutdown => {
                    break;
                },
            }
        }
    }
}

} // verus!
