//! The envelope moved through the queue: a request paired with the completion
//! channel its response travels back on.

use vstd::prelude::*;
use std::sync::mpsc::Sender;
use super::payload::{Request, Response};

verus! {

/// Pairs a request with the sending end of its completion channel. The queue
/// owns the envelope until it is dequeued; the consumer then answers on
/// `response_channel` and the envelope is gone — its lifetime is one
/// round-trip.
#[derive(Debug)]
#[verifier::reject_recursive_types(RES)]
pub struct Message<REQ: Request, RES: Response> {
    /// The submitted request.
    pub request: REQ,
    /// Where the response to exactly this request is written.
    pub response_channel: Sender<RES>,
}

impl<REQ: Request, RES: Response> Message<REQ, RES> {
    /// Wraps a request together with the completion channel for its response.
    pub fn new(request: REQ, response: Sender<RES>) -> (r: Self)
        ensures
            r.request == request,
            r.response_channel == response,
    {
        Self { request, response_channel: response }
    }
}

} // verus!
