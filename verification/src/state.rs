//! The state that a server must keep across restarts, and the trait of
//! the stores that keep it.
use vstd::prelude::*;
use crate::types::{Term, ServerIdentity};

verus! {

/// The state that outlives a restart: the latest term the server has seen
/// and whom it voted for in that term.
#[derive(PartialEq, Eq, Structural, Clone, Copy, Debug)]
pub struct PersistentState {
    pub current_term: Term,
    pub voted_for: Option<ServerIdentity>,
}

impl PersistentState {
    /// The state of a server that starts for the first time: term 0, no vote.
    pub fn new() -> (state: PersistentState)
        ensures
            state.current_term == 0,
            state.voted_for is None,
    {
        PersistentState { current_term: 0, voted_for: None }
    }
}

/// Why a store could not keep or give back the persistent state.
pub enum PersistFailed {
    NoFreeSpace,
    InsufficientPermission,
    OSError(String),
}

/// A store for the persistent state.
pub trait StatePersister {
    /// Keeps `state`.
    fn endure(&self, state: &PersistentState) -> Result<(), PersistFailed>;

    /// Gives back the state last kept.
    fn load(&self) -> Result<PersistentState, PersistFailed>;
}

} // verus!
