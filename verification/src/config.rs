//! The configuration of a node: who it is and how long it waits for a
//! leader before it stands for election.
use vstd::prelude::*;
use crate::types::ServerIdentity;

verus! {

/// The bounds of the election timeout, in milliseconds.
#[derive(PartialEq, Eq, Structural, Clone, Copy, Debug)]
pub struct ElectionTimeoutRange {
    pub minimum_milliseconds: u16,
    pub maximum_milliseconds: u16,
}

/// A node's identity and election timeout.
#[derive(PartialEq, Eq, Structural, Clone, Copy, Debug)]
pub struct Config {
    pub server_id: ServerIdentity,
    pub election_timeout_range_milliseconds: ElectionTimeoutRange,
}

/// The configuration of `server_id` with an election timeout from `minimum`
/// to `maximum` milliseconds.
pub open spec fn config_with(server_id: ServerIdentity, minimum: u16, maximum: u16) -> Config {
    Config {
        server_id,
        election_timeout_range_milliseconds: ElectionTimeoutRange {
            minimum_milliseconds: minimum,
            maximum_milliseconds: maximum,
        },
    }
}

impl ElectionTimeoutRange {
    /// Used in unit testing
    pub fn testing(server_id: ServerIdentity) -> (config: Config)
        ensures
            config == config_with(server_id, 1, 1),
    {
        Config {
            server_id,
            election_timeout_range_milliseconds: ElectionTimeoutRange {
                minimum_milliseconds: 1,
                maximum_milliseconds: 1,
            },
        }
    }

    /// Standard LAN timing
    pub fn lan(server_id: ServerIdentity) -> (config: Config)
        ensures
            config == config_with(server_id, 150, 300),
    {
        Config {
            server_id,
            election_timeout_range_milliseconds: ElectionTimeoutRange {
                minimum_milliseconds: 150,
                maximum_milliseconds: 300,
            },
        }
    }

    /// Geographical close WAN timing
    pub fn close_wan(server_id: ServerIdentity) -> (config: Config)
        ensures
            config == config_with(server_id, 250, 500),
    {
        Config {
            server_id,
            election_timeout_range_milliseconds: ElectionTimeoutRange {
                minimum_milliseconds: 250,
                maximum_milliseconds: 500,
            },
        }
    }

    /// Globalally disperse WAN timing
    pub fn global_wan(server_id: ServerIdentity) -> (config: Config)
        ensures
            config == config_with(server_id, 500, 2500),
    {
        Config {
            server_id,
            election_timeout_range_milliseconds: ElectionTimeoutRange {
                minimum_milliseconds: 500,
                maximum_milliseconds: 2500,
            },
        }
    }
}

} // verus!
