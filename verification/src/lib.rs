//! A Raft consensus server whose decisions are written as verified state
//! transitions: the server reacts to messages and timeouts, and the host
//! process performs the sends and waits that the server asks for.

pub mod types;
pub mod role;
pub mod messages;
pub mod server_action;
pub mod state;
pub mod log;
pub mod in_memory;
pub mod election_timeout;
pub mod config;
pub mod model;
pub mod server;
pub mod raft;
pub mod node;
pub mod laws;

pub use types::{ServerIdentity, Role, Term, LogIndex};
pub use messages::{
    Payload, Message, Envelope, Addressee, AppendEntriesPayload, AppendEntriesResultPayload,
    RequestVotePayload, RequestVoteResultPayload,
};
pub use server_action::ServerAction;
pub use server::Server;
pub use raft::{Raft, LoopEvent, RunAction, TimeoutKind};
pub use election_timeout::ElectionTimeoutRange;
