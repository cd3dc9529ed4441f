//! Replicated-log data model: positions identified by term and index, and
//! contiguous single-term segments of commands.

use vstd::prelude::*;

verus! {

/// A single log entry: an opaque command, as bytes, to be replicated across
/// the cluster and interpreted by the state machine.
pub type LogEntry = Vec<u8>;

/// The unique identifier of a log entry: the leader epoch (term) in which it
/// was created together with its 1-based position (index) in the log.
#[derive(Debug, Clone, PartialEq, Eq, Structural)]
pub struct LogPosition {
    /// Leader epoch in which the entry was created; terms increase monotonically.
    pub term: u64,
    /// 1-based position in the log; indexes increase monotonically.
    pub index: u64,
}

impl LogPosition {
    /// Creates the position with the given term and index.
    pub fn new(term: u64, index: u64) -> (r: Self)
        ensures
            r.term == term,
            r.index == index,
    {
        Self { term, index }
    }
}

/// A contiguous section of the log whose entries all share one term.
/// Position 0 of `commands` holds the entry with log index 1.
#[derive(Debug, Clone)]
pub struct SegmentLog {
    /// The term shared by every entry in this segment.
    pub term: u64,
    /// The commands of the segment, in log order.
    pub commands: Vec<LogEntry>,
}

impl SegmentLog {
    /// Creates a segment holding the given commands, all under the given term.
    pub fn new(term: u64, commands: Vec<LogEntry>) -> (r: Self)
        ensures
            r.term == term,
            r.commands == commands,
    {
        Self { term, commands }
    }

    /// The index of the last entry of the segment, or 0 when it is empty.
    /// With 1-based indexing this is exactly the number of commands.
    pub fn last_log_index(&self) -> (r: u64)
        ensures
            r == self.commands@.len(),
    {
        self.commands.len() as u64
    }

    /// The entry at the given 1-based index, or `None` when the index is 0 or
    /// past the end of the segment.
    pub fn log_at(&self, index: u64) -> (r: Option<&LogEntry>)
        ensures
            1 <= index && index <= self.commands@.len() ==> (r matches Some(e) && *e == self.commands@[index - 1]),
            (index == 0 || index > self.commands@.len()) ==> r is None,
    {
        if 1 <= index && index <= self.commands.len() as u64 {
            Some(&self.commands[(index - 1) as usize])
        } else {
            None
        }
    }
}

} // verus!
