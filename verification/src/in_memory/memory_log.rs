//! Memory Log is actually volatile and is used to support
//! development, testing and experiments.
//!
//! Don't use MemoryLog with a real workload.
use vstd::prelude::*;
use crate::log::{LogEntry, LogFailed, LogPersister};

verus! {

pub struct MemoryLog {
    pub log: Vec<LogEntry>,
}

impl MemoryLog {
    /// An empty log.
    pub fn new() -> (memory_log: MemoryLog)
        ensures
            memory_log.log@ == Seq::<LogEntry>::empty(),
    {
        MemoryLog { log: Vec::new() }
    }
}

impl LogPersister for MemoryLog {
    /// Keeps the entry at the end of the log; never fails.
    fn append_entry(&mut self, entry: LogEntry) -> (result: Result<(), LogFailed>)
        ensures
            final(self).log@ == old(self).log@.push(entry),
            result is Ok,
    {
        self.log.push(entry);
        Ok(())
    }
}

} // verus!
