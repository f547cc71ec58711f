//! The distributed node: a node joins the cluster as a follower and stands
//! for election when it hears from no leader. The host runs the node's
//! loop, delivers its events and sends what it reports.
use vstd::prelude::*;
use std::time::Duration;
use crate::role::Role;
use crate::config::{Config, ElectionTimeoutRange};
use crate::messages::{Status, InwardMessage, OutwardMessage, RequestVotePayload};
use crate::election_timeout::{millis_duration, duration_from_millis, random_in_range};
use crate::model::is_majority;

verus! {

pub struct Follower {
    pub id: u16,
    pub next_index: u64,
    pub match_index: u64,
}

pub struct Node {
    pub role: Role,
    pub config: Config,
    pub followers: Vec<Follower>,
}

/// What the host observed while waiting for the node's next message.
pub enum NodeEvent {
    Received(InwardMessage),
    TimedOut,
    Disconnected,
}

/// What the host must do after an event.
pub enum NodeReaction {
    /// Keep waiting.
    Continue,
    /// Stop running the node.
    Stop,
    /// Report the candidate's status, send the request for votes and, where
    /// the node's own vote already won the election, report its status as
    /// leader.
    Campaign(Status, OutwardMessage, Option<Status>),
}

/// The status that a node in `role` reports.
pub open spec fn status_of(role: Role) -> Status {
    Status { term: 0, role, commit_index: 0 }
}

/// The request for votes of a node configured as `config`.
pub open spec fn vote_request_of(config: Config) -> RequestVotePayload {
    RequestVotePayload { term: 0, candidate_id: config.server_id, last_log_index: 0, last_log_term: 0 }
}

/// The outcome of standing for election: a node whose own vote is a
/// majority of the members it knows (itself and its followers) leads at
/// once; otherwise it stays a candidate.
pub open spec fn elected_role(follower_count: nat) -> Role {
    if is_majority(1, follower_count as int) { Role::Leader } else { Role::Candidate }
}

/// The status that a node reports once elected, if it was.
pub open spec fn leader_status(follower_count: nat) -> Option<Status> {
    if elected_role(follower_count) == Role::Leader { Some(status_of(Role::Leader)) } else { None }
}

impl Node {
    /// A node that is not yet part of the cluster.
    pub fn new(config: Config) -> (node: Node)
        ensures
            node.role == Role::Disqualified,
            node.config == config,
            node.followers@.len() == 0,
    {
        Node { role: Role::Disqualified, config, followers: Vec::new() }
    }

    /// Joins the cluster as a follower; returns the status to report.
    pub fn start(&mut self) -> (status: Status)
        ensures
            final(self).role == Role::Follower,
            final(self).config == old(self).config,
            final(self).followers@ == old(self).followers@,
            status == status_of(Role::Follower),
    {
        self.change_role(Role::Follower)
    }

    /// A random election timeout within `election_timeout_range`, bounds
    /// included.
    pub fn new_election_timeout(election_timeout_range: &ElectionTimeoutRange) -> (timeout: Duration)
        requires
            election_timeout_range.minimum_milliseconds <= election_timeout_range.maximum_milliseconds,
        ensures
            exists|milliseconds: u64|
                election_timeout_range.minimum_milliseconds <= milliseconds
                <= election_timeout_range.maximum_milliseconds
                && timeout == #[trigger] millis_duration(milliseconds),
    {
        let low: u64 = election_timeout_range.minimum_milliseconds as u64;
        let high: u64 = election_timeout_range.maximum_milliseconds as u64 + 1;
        let milliseconds = random_in_range(low, high);
        let timeout = duration_from_millis(milliseconds);
        assert(timeout == millis_duration(milliseconds));
        timeout
    }

    /// Stands for election: becomes a candidate, asks for votes and counts
    /// its own; a node that knows no other member then holds a majority and
    /// leads. Returns the candidate's status, the request to send and the
    /// leader's status where the node won.
    pub fn become_candidate_leader(&mut self) -> (outcome: (Status, OutwardMessage, Option<Status>))
        ensures
            final(self).role == elected_role(old(self).followers@.len()),
            final(self).config == old(self).config,
            final(self).followers@ == old(self).followers@,
            outcome.0 == status_of(Role::Candidate),
            outcome.1 == OutwardMessage::RequestVote(vote_request_of(old(self).config)),
            outcome.2 == leader_status(old(self).followers@.len()),
    {
        let status = self.change_role(Role::Candidate);
        let request = RequestVotePayload {
            term: 0,
            candidate_id: self.config.server_id,
            last_log_index: 0,
            last_log_term: 0,
        };
        // The node's own vote, counted against itself and its followers.
        let has_more_than_half_the_votes = 2u128 > (self.followers.len() as u128) + 1;
        if has_more_than_half_the_votes {
            let elected = self.change_role(Role::Leader);
            (status, OutwardMessage::RequestVote(request), Some(elected))
        } else {
            (status, OutwardMessage::RequestVote(request), None)
        }
    }

    /// Changes the role; returns the status to report.
    pub fn change_role(&mut self, new_role: Role) -> (status: Status)
        ensures
            final(self).role == new_role,
            final(self).config == old(self).config,
            final(self).followers@ == old(self).followers@,
            status == status_of(new_role),
    {
        self.role = new_role;
        self.report_status()
    }

    /// The node's status.
    pub fn report_status(&self) -> (status: Status)
        ensures
            status == status_of(self.role),
    {
        Status { term: 0, role: self.role, commit_index: 0 }
    }

    /// Handles an event of the node's loop: a stop message or a lost
    /// connection stops the node, a timeout makes it stand for election
    /// (and win it where it knows no other member), other messages are
    /// ignored.
    pub fn handle(&mut self, event: &NodeEvent) -> (reaction: NodeReaction)
        ensures
            match event {
                NodeEvent::Received(InwardMessage::Stop) => {
                    &&& reaction is Stop
                    &&& final(self).role == old(self).role
                },
                NodeEvent::Received(_) => {
                    &&& reaction is Continue
                    &&& final(self).role == old(self).role
                },
                NodeEvent::TimedOut => {
                    &&& final(self).role == elected_role(old(self).followers@.len())
                    &&& reaction == NodeReaction::Campaign(
                        status_of(Role::Candidate),
                        OutwardMessage::RequestVote(vote_request_of(old(self).config)),
                        leader_status(old(self).followers@.len()),
                    )
                },
                NodeEvent::Disconnected => {
                    &&& reaction is Continue
                    &&& final(self).role == old(self).role
                },
            },
            final(self).config == old(self).config,
            final(self).followers@ == old(self).followers@,
    {
        match event {
            NodeEvent::Received(InwardMessage::Stop) => NodeReaction::Stop,
            NodeEvent::Received(_) => NodeReaction::Continue,
            NodeEvent::TimedOut => {
                let (status, request, elected) = self.become_candidate_leader();
                NodeReaction::Campaign(status, request, elected)
            },
            NodeEvent::Disconnected => NodeReaction::Continue,
        }
    }
}

} // verus!
