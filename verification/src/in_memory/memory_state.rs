//! Memory State is actually volatile and is used to support
//! development, testing and experiments.
//!
//! Don't use MemoryState with a real workload.
use vstd::prelude::*;
use crate::state::{PersistentState, PersistFailed, StatePersister};

verus! {

pub struct MemoryState;

impl MemoryState {
    pub fn new() -> (memory_state: MemoryState) {
        MemoryState
    }
}

impl StatePersister for MemoryState {
    /// Does nothing
    fn endure(&self, state: &PersistentState) -> (result: Result<(), PersistFailed>)
        ensures
            result is Ok,
    {
        Ok(())
    }

    /// Pretends the server is starting for the first time.
    fn load(&self) -> (result: Result<PersistentState, PersistFailed>)
        ensures
            result matches Ok(state) && state.current_term == 0 && state.voted_for is None,
    {
        Ok(PersistentState::new())
    }
}

} // verus!
