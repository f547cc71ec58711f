//! Identities, terms, log indexes and the role a server plays.
use vstd::prelude::*;

verus! {

/// An election term; terms only ever move forward.
pub type Term = u64;

/// A position in the replicated log.
pub type LogIndex = u64;

/// The identity of a server in the cluster: the 128 bits of a random
/// (version 4) UUID.
#[derive(PartialEq, Eq, Structural, Clone, Copy, Debug)]
pub struct ServerIdentity {
    pub id: u128,
}

/// True of the bits of every version 4, RFC 4122 variant UUID.
pub open spec fn is_random_uuid(id: u128) -> bool {
    &&& (id >> 76u128) & 0xfu128 == 4
    &&& (id >> 62u128) & 0x3u128 == 2
}

/// Draws a fresh UUID with `uuid::Uuid::new_v4` and hands back its 128 bits
/// (`Uuid::as_u128`). The bits come from the system's random source; the
/// only thing promised of every outcome is what `new_v4` sets by itself:
/// the version nibble (4) and the variant bits (RFC 4122).
#[verifier::external_body]
fn random_uuid_bits() -> (id: u128)
    ensures
        is_random_uuid(id),
{
    uuid::Uuid::new_v4().as_u128()
}

impl ServerIdentity {
    /// A new identity, drawn at random.
    pub fn new() -> (identity: ServerIdentity)
        ensures
            is_random_uuid(identity.id),
    {
        ServerIdentity { id: random_uuid_bits() }
    }
}

/// Role of the server
#[derive(PartialEq, Eq, Structural, Clone, Copy, Debug)]
pub enum Role {
    /// Following a leader
    Follower,
    /// Candidate for leadership, during an election
    Candidate,
    /// Leader for this term
    Leader,
}

} // verus!
