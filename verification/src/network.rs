//! The boundary to the cluster network: the kinds of messages a node can
//! exchange, and the interfaces an actual transport implements. The transports
//! themselves live outside this library.

use vstd::prelude::*;
use crate::rpc::{AppendEntryRequest, AppendEntryResponse, RequestVoteRequest, RequestVoteResponse};

verus! {

/// The kinds of messages exchanged between nodes of the cluster.
#[derive(Debug)]
pub enum RpcMessage {
    RequestVote(RequestVoteRequest),
    RequestVoteResponse(RequestVoteResponse),
    AppendEntry(AppendEntryRequest),
    AppendEntryResponse(AppendEntryResponse),
}

/// A transport-level failure reported by a cluster network implementation.
#[derive(Debug, Clone, Copy, PartialEq, Eq, Structural)]
pub struct NetworkError;

/// The sending side of the cluster network. A transport implements this to
/// carry messages from this node to another one.
pub trait ClusterOutboundNetwork {
    /// Sends a message to the node with the given identifier. Returns
    /// `Err(NetworkError)` when the transport could not deliver it.
    fn send(&self, message: RpcMessage, node_id: u64) -> Result<(), NetworkError>;
}

/// The receiving side of the cluster network. A transport implements this to
/// hand messages arriving from another node to this one.
pub trait ClusterInboundNetwork {
    /// Accepts a message arriving from the node with the given identifier.
    /// Returns `Err(NetworkError)` when the message could not be taken in.
    fn receive(&self, message: RpcMessage, node_id: u64) -> Result<(), NetworkError>;
}

} // verus!
