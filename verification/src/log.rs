//! Entries of the replicated log, and the trait of the stores that keep them.
use vstd::prelude::*;

verus! {

pub struct LogEntry {
    pub term: u64,
    pub entry: Vec<u8>,
}

impl LogEntry {
    /// An entry of `term` holding a copy of the bytes of `entry`.
    pub fn new(term: u64, entry: &Vec<u8>) -> (log_entry: LogEntry)
        ensures
            log_entry.term == term,
            log_entry.entry@ == entry@,
    {
        let bytes = entry.clone();
        assert(bytes@ =~= entry@);
        LogEntry { term, entry: bytes }
    }
}

/// Why a store could not keep an entry.
pub enum LogFailed {
    NoFreeSpace,
    InsufficientPermission,
    OSError(String),
}

/// A store for log entries.
pub trait LogPersister: Send + Sync {
    /// Keeps `entry` after the entries kept before it.
    fn append_entry(&mut self, entry: LogEntry) -> Result<(), LogFailed>;
}

} // verus!
