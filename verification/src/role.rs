//! The role a node reports in its status, including the state it is in
//! before it has joined the cluster.
use vstd::prelude::*;

verus! {

/// Role of the node
#[derive(PartialEq, Eq, Structural, Clone, Copy, Debug)]
pub enum Role {
    /// Not part of the cluster configuration
    Disqualified,
    /// Following a leader
    Follower,
    /// Candidate for leadership, during an election
    Candidate,
    /// Leader for this term
    Leader,
}

} // verus!
