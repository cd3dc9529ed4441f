//! The complete state a consensus server keeps: persistent term/vote/log data,
//! volatile commit bookkeeping, and the server's current role.

use vstd::prelude::*;
use crate::log::{LogPosition, SegmentLog};

verus! {

/// The role a server currently plays in the cluster.
#[derive(Debug, Clone, PartialEq, Eq, Structural)]
pub enum State {
    /// Coordinates all system changes and handles client requests.
    Leader,
    /// Passive role that responds to requests from leaders and candidates.
    Follower,
    /// Initiates leader elections and requests votes from other servers.
    Candidate,
}

/// All state a consensus server maintains: the persistent part that must
/// survive restarts (term, vote, log), the volatile part rebuilt afterwards
/// (commit and apply positions), leader-only replication bookkeeping, and the
/// server's identity and role. Only passive data lives here; no transition
/// logic is attached to it.
#[derive(Debug, Clone)]
pub struct RaftState {
    /// Monotonically increasing leader-epoch number.
    pub current_term: u64,
    /// The candidate this server voted for in the current term, if any.
    pub voted_for: Option<u64>,
    /// The log, as contiguous single-term segments.
    pub logs: Vec<SegmentLog>,

    /// Highest log entry known to be committed.
    pub commit_position: LogPosition,
    /// Highest log entry applied to the state machine.
    pub last_applied: LogPosition,

    /// Next entry to send to each follower (leader only).
    pub next_position: Vec<LogPosition>,
    /// Highest entry known replicated on each follower (leader only).
    pub match_position: Vec<LogPosition>,

    /// The server's current role.
    pub state: State,
    /// This server's unique identifier in the cluster.
    pub server_id: u64,
}

impl RaftState {
    /// Creates the initial state of a server: a follower at term 0 that has
    /// cast no vote, holds an empty log, and has committed and applied nothing.
    pub fn new(server_id: u64) -> (r: Self)
        ensures
            r.current_term == 0,
            r.voted_for is None,
            r.logs@ =~= Seq::<SegmentLog>::empty(),
            r.commit_position == (LogPosition { term: 0, index: 0 }),
            r.last_applied == (LogPosition { term: 0, index: 0 }),
            r.next_position@ =~= Seq::<LogPosition>::empty(),
            r.match_position@ =~= Seq::<LogPosition>::empty(),
            r.state == State::Follower,
            r.server_id == server_id,
    {
        Self {
            current_term: 0,
            voted_for: None,
            logs: Vec::new(),
            commit_position: LogPosition::new(0, 0),
            last_applied: LogPosition::new(0, 0),
            next_position: Vec::new(),
            match_position: Vec::new(),
            state: State::Follower,
            server_id,
        }
    }

    /// The index of the last entry of the last log segment, or 0 when the log
    /// is empty.
    pub fn last_log_index(&self) -> (r: u64)
        ensures
            self.logs@.len() == 0 ==> r == 0,
            self.logs@.len() > 0 ==> r == self.logs@.last().commands@.len(),
    {
        if self.logs.len() == 0 {
            0
        } else {
            self.logs[self.logs.len() - 1].last_log_index()
        }
    }

    /// The term of the last log segment, or 0 when the log is empty.
    pub fn last_log_term(&self) -> (r: u64)
        ensures
            self.logs@.len() == 0 ==> r == 0,
            self.logs@.len() > 0 ==> r == self.logs@.last().term,
    {
        if self.logs.len() == 0 {
            0
        } else {
            self.logs[self.logs.len() - 1].term
        }
    }
}

} // verus!
