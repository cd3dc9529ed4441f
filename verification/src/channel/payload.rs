//! The constraints on what travels through the channel: requests and
//! responses are opaque values that can be cloned and shared safely across
//! concurrent tasks.

use vstd::prelude::*;

verus! {

/// A value a producer may submit: cloneable and safe to move between tasks.
pub trait Request: Clone + Send + Sync {

}

/// A value a strategy may answer with: cloneable and safe to move between
/// tasks.
pub trait Response: Clone + Send + Sync {

}

} // verus!
