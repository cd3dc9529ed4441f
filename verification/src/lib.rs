//! An in-process correlated request/reply primitive — many producers submit
//! requests into one bounded FIFO queue, a single consumer drains it and
//! answers each request on its own completion channel — together with the
//! passive data model of a consensus node: log positions and segments, server
//! state, and the shapes of the cluster's messages.

pub mod channel;
pub mod log;
pub mod network;
pub mod payloads;
pub mod rpc;
pub mod state;
