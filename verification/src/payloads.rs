//! The concrete request and response shapes the surrounding application sends
//! through the channel: a greeting round-trip correlated by id, and the
//! balance-creation exchange.

use vstd::prelude::*;
use crate::channel::payload::{Request, Response};

verus! {

/// A greeting request: a correlation id the sender picks, and free text.
#[derive(Debug, Clone, PartialEq, Eq)]
pub struct MyRequest {
    /// Chosen by the sender; the matching response echoes it back.
    pub correlation_id: usize,
    /// Free text carried along.
    pub content: String,
}

impl Request for MyRequest {

}

/// The answer to a greeting request, carrying the same correlation id.
#[derive(Debug, Clone, PartialEq, Eq)]
pub struct MyResponse {
    /// Copied from the request this response answers.
    pub correlation_id: usize,
    /// The reply text.
    pub content: String,
}

impl Response for MyResponse {

}

/// Asks for a balance to be created for a user, identified by the two halves
/// of a 128-bit unique id.
#[derive(Debug, Clone, PartialEq, Eq)]
pub struct CreateBalance {
    /// High 64 bits of the unique id of the exchange.
    pub uuid_most_significant: u64,
    /// Low 64 bits of the unique id of the exchange.
    pub uuid_least_significant: u64,
    /// The user the balance belongs to.
    pub user_id: u64,
}

impl Request for CreateBalance {

}

/// The answer to a balance creation: the id of the new balance, under the
/// unique id of the exchange that asked for it.
#[derive(Debug, Clone, PartialEq, Eq)]
pub struct CreateBalanceResponse {
    /// High 64 bits of the unique id of the exchange.
    pub uuid_most_significant: u64,
    /// Low 64 bits of the unique id of the exchange.
    pub uuid_least_significant: u64,
    /// The id of the balance that was created.
    pub balance_id: u64,
}

impl Response for CreateBalanceResponse {

}

} // verus!
