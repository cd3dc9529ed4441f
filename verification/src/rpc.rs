//! The shapes of the remote-procedure-call messages the cluster exchanges:
//! vote requests during elections and append-entry requests for replication
//! and heartbeats. Passive data only; the protocol acting on it is out of
//! scope here.

use vstd::prelude::*;
use crate::log::LogEntry;

verus! {

/// Sent by a candidate to every other server when it starts an election.
#[derive(Debug, Clone)]
pub struct RequestVoteRequest {
    /// The candidate's term.
    pub current_term: u64,
    /// The candidate asking for the vote.
    pub candidate_id: u64,
    /// Index of the candidate's last log entry, for the log-completeness check.
    pub last_log_index: u64,
    /// Term of the candidate's last log entry, for the log-completeness check.
    pub last_log_term: u64,
}

/// A follower's answer to a vote request.
#[derive(Debug, Clone)]
pub struct RequestVoteResponse {
    /// The responder's current term, so the candidate can update itself.
    pub term: u64,
    /// True when the responder granted its vote to the candidate.
    pub vote_granted: bool,
}

/// Sent by the leader to replicate log entries and to maintain its heartbeat.
#[derive(Debug, Clone)]
pub struct AppendEntryRequest {
    /// The leader's term, letting followers detect stale leaders.
    pub current_term: u64,
    /// The leader's identifier, so followers can redirect clients.
    pub leader_id: u64,

    /// Index of the entry preceding the new ones, for the consistency check.
    pub prev_log_index: u64,
    /// Term of the entry preceding the new ones, for the consistency check.
    pub prev_log_term: u64,

    /// Index at which the new entries are to be appended.
    pub append_index: u64,
    /// The entries to store; empty for a pure heartbeat.
    pub entries: Vec<LogEntry>,

    /// The leader's commit index, advancing the followers' commit positions.
    pub leader_commit: u64,
}

/// A follower's answer to an append-entries request.
#[derive(Debug, Clone)]
pub struct AppendEntryResponse {
    /// The responder's current term, so the leader can update itself.
    pub term: u64,
    /// True when the follower held an entry matching the consistency check.
    pub success: bool,
}

} // verus!
