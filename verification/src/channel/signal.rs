//! The completion slot realized as a shared flag beside a response slot: the
//! per-request state a consumer writes once and a producer reads once. This
//! type holds the slot's state and its transitions; the cross-task sharing,
//! waking and timed blocking belong to the embedding runtime.

use vstd::prelude::*;
use super::payload::Response;

verus! {

/// Reported by `wait` while the signal is not yet completed: the wait's time
/// budget elapsed first.
#[derive(Debug, Clone, Copy, PartialEq, Eq, Structural)]
pub struct Elapsed;

/// A single-writer, single-reader completion slot: at most one response ever
/// enters it, and once `processed` is set it never clears. The writer is the
/// consumer, through `complete`; the reader is the producer, through `wait`
/// and the `response` slot.
#[derive(Debug, Clone)]
pub struct SharedSignal<R: Response> {
    /// Set once the response has been stored; the exactly-once guard.
    pub processed: bool,
    /// The response slot, written at most once.
    pub response: Option<R>,
}

impl<R: Response> SharedSignal<R> {
    /// A signal holds a response exactly when it is marked processed.
    pub open spec fn wf(self) -> bool {
        self.processed ==> self.response is Some
    }

    /// Creates a fresh signal: not processed, with an empty response slot.
    pub fn new() -> (r: Self)
        ensures
            !r.processed,
            r.response is None,
            r.wf(),
    {
        Self { processed: false, response: None }
    }

    /// The consumer marks the request processed, storing its response. A
    /// signal accepts at most one response: completing an already-processed
    /// signal is a deterministic no-op that leaves the first response in
    /// place, never a crash and never a silent overwrite.
    pub fn complete(&mut self, response: R)
        ensures
            old(self).processed ==> *final(self) == *old(self),
            !old(self).processed ==> final(self).processed && final(self).response == Some(response),
            final(self).processed,
            old(self).wf() ==> final(self).wf(),
    {
        if !self.processed {
            self.response = Some(response);
            self.processed = true;
        }
    }

    /// The producer's readiness check: `Ok(())` once the signal is processed
    /// and the response can be read from the slot, `Err(Elapsed)` while it is
    /// not. A waiting producer consults this after each wakeup until its time
    /// budget runs out.
    pub fn wait(&self) -> (r: Result<(), Elapsed>)
        ensures
            r is Ok <==> self.processed,
    {
        if self.processed {
            Ok(())
        } else {
            Err(Elapsed)
        }
    }
}

} // verus!
