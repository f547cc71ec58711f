//! The distributed server: reacts to the messages of its peers and to
//! election timeouts, and answers with the action its host should take.
use vstd::prelude::*;
use crate::types::{Term, ServerIdentity, Role};
use crate::messages::{
    Payload, Message, AppendEntriesPayload, AppendEntriesResultPayload, RequestVotePayload,
    RequestVoteResultPayload,
};
use crate::server_action::{ServerAction, ActionView};
use crate::state::PersistentState;
use crate::model;
use crate::model::{Follower, ServerView};

verus! {

/// The state that does not outlive a restart.
#[derive(Clone, Debug)]
pub struct VolatileState {
    pub role: Role,
    pub peers: Vec<ServerIdentity>,
    pub followers: Option<Vec<Follower>>,
    pub votes: u32,
}

pub struct Server {
    pub identity: ServerIdentity,
    pub persistent_state: PersistentState,
    pub volatile_state: VolatileState,
}

impl View for Server {
    type V = ServerView;

    open spec fn view(&self) -> ServerView {
        ServerView {
            identity: self.identity,
            current_term: self.persistent_state.current_term,
            voted_for: self.persistent_state.voted_for,
            role: self.volatile_state.role,
            peers: self.volatile_state.peers@,
            followers: match self.volatile_state.followers {
                Some(f) => Some(f@),
                None => None,
            },
            votes: self.volatile_state.votes,
        }
    }
}

impl Server {
    /// A server with the given identity and peers, following, in term 1,
    /// without a vote.
    pub fn new(identity: ServerIdentity, peers: Vec<ServerIdentity>) -> (server: Server)
        ensures
            server@ == model::initial(identity, peers@),
    {
        Server {
            identity,
            persistent_state: PersistentState { current_term: 1, voted_for: None },
            volatile_state: VolatileState { role: Role::Follower, peers, followers: None, votes: 0 },
        }
    }

    pub fn get_identity(&self) -> (identity: ServerIdentity)
        ensures
            identity == self@.identity,
    {
        self.identity
    }

    pub fn current_term(&self) -> (term: Term)
        ensures
            term == self@.current_term,
    {
        self.persistent_state.current_term
    }

    pub fn current_role(&self) -> (role: Role)
        ensures
            role == self@.role,
    {
        self.volatile_state.role
    }

    /// Moves to the term after the current one.
    pub fn next_term(&mut self)
        requires
            old(self)@.current_term < Term::MAX,
        ensures
            final(self)@ == model::enter_term(old(self)@, (old(self)@.current_term + 1) as Term),
    {
        let next = self.current_term() + 1;
        self.update_term(next);
    }

    /// Moves to `new_term`, which may not be earlier than the current term:
    /// the vote, the followers and the received votes are forgotten and the
    /// server follows.
    pub fn update_term(&mut self, new_term: Term)
        requires
            new_term >= old(self)@.current_term,
        ensures
            final(self)@ == model::enter_term(old(self)@, new_term),
    {
        self.persistent_state.current_term = new_term;
        self.persistent_state.voted_for = None;
        self.volatile_state.followers = None;
        self.volatile_state.votes = 0;
        self.change_role(Role::Follower);
    }

    /// Whether a server in `my_term` is behind a server in `other_candidates_term`.
    pub fn i_am_out_of_date(my_term: Term, other_candidates_term: Term) -> (out_of_date: bool)
        ensures
            out_of_date == model::out_of_date(my_term, other_candidates_term),
    {
        other_candidates_term > my_term
    }

    /// Holds where the payload's term is not later than the current term.
    pub fn assert_term_is_current<P: Payload>(&self, payload: &P)
        requires
            !model::out_of_date(self@.current_term, payload.spec_term()),
    {
    }

    pub fn change_role(&mut self, new_role: Role)
        ensures
            final(self)@ == model::with_role(old(self)@, new_role),
    {
        self.volatile_state.role = new_role;
    }

    /// Moves to the payload's term if it is later than the current one,
    /// and says whether it did (`NewTerm`) or not (`Continue`).
    pub fn ensure_term_is_latest<P: Payload>(&mut self, payload: &P) -> (action: ServerAction)
        ensures
            (final(self)@, action@) == model::ensure_latest(old(self)@, payload.spec_term()),
    {
        let term = payload.term();
        if Server::i_am_out_of_date(self.current_term(), term) {
            self.update_term(term);
            ServerAction::NewTerm
        } else {
            ServerAction::Continue
        }
    }

    /// Handles append entries from a leader.
    pub fn append_entries(&mut self, entries: &AppendEntriesPayload) -> (action: ServerAction)
        ensures
            (final(self)@, action@) == model::append_entries(old(self)@, entries.term),
    {
        self.ensure_term_is_latest(entries);

        // A candidate that gets append entries for its current or a later term
        // has lost the election: it accepts the leader's term and follows.
        if self.current_role() == Role::Candidate && self.current_term() <= entries.term() {
            self.update_term(entries.term());
        }
        ServerAction::Continue
    }

    /// Handles a follower's answer to append entries.
    pub fn append_entries_result(&mut self, result: &AppendEntriesResultPayload) -> (action: ServerAction)
        ensures
            (final(self)@, action@) == model::append_entries_result(old(self)@, result.term),
    {
        self.ensure_term_is_latest(result);
        ServerAction::Continue
    }

    /// The heartbeat of this server, as leader of its current term.
    pub fn broadcast_heartbeat(&self) -> (action: ServerAction)
        ensures
            action@ == model::heartbeat_action(self@),
    {
        ServerAction::Broadcast(Message::AppendEntries(
            AppendEntriesPayload::heartbeat(self.current_term(), self.identity),
        ))
    }

    /// Starts an election in the next term, votes for itself and asks its
    /// peers for their votes; a server without peers leads at once.
    pub fn start_new_election(&mut self) -> (action: ServerAction)
        requires
            old(self)@.current_term < Term::MAX,
        ensures
            (final(self)@, action@) == model::start_new_election(old(self)@),
    {
        let ghost s0 = self@;
        self.next_term();
        self.change_role(Role::Candidate);

        let request_vote = RequestVotePayload {
            term: self.persistent_state.current_term,
            candidate_id: self.identity,
            last_log_index: 0,
            last_log_term: 0,
        };

        match self.consider_vote_request(&request_vote) {
            ServerAction::Reply(Message::RequestVoteResult(rvr)) => {
                let collected_vote = self.collect_vote(&rvr);
                let self_appointed = match &collected_vote {
                    ServerAction::Broadcast(Message::AppendEntries(_)) => true,
                    _ => false,
                };
                if self_appointed {
                    // Alone in the cluster, the server's own vote is a majority.
                    collected_vote
                } else {
                    // With peers, the server asks them for their votes.
                    ServerAction::Broadcast(Message::RequestVote(request_vote))
                }
            },
            _ => {
                proof {
                    assert(false);
                }
                ServerAction::Continue
            },
        }
    }

    /// Handles a candidate's request for this server's vote.
    pub fn consider_vote_request(&mut self, request_vote: &RequestVotePayload) -> (action: ServerAction)
        ensures
            (final(self)@, action@) == model::consider_vote(old(self)@, *request_vote),
    {
        self.ensure_term_is_latest(request_vote);

        let mut payload = RequestVoteResultPayload { term: self.current_term(), vote_granted: false };

        if self.persistent_state.voted_for.is_none() {
            self.persistent_state.voted_for = Some(request_vote.candidate_id);
            payload.vote_granted = true;
        }
        ServerAction::Reply(Message::RequestVoteResult(payload))
    }

    /// Handles a peer's answer to this server's request for votes.
    pub fn collect_vote(&mut self, request_vote_result: &RequestVoteResultPayload) -> (action: ServerAction)
        requires
            model::counts_vote(old(self)@, *request_vote_result) ==> old(self)@.votes < u32::MAX,
        ensures
            (final(self)@, action@) == model::collect_vote(old(self)@, *request_vote_result),
    {
        self.ensure_term_is_latest(request_vote_result);

        if self.current_role() == Role::Candidate {
            if request_vote_result.vote_granted {
                self.volatile_state.votes = self.volatile_state.votes + 1;
            }
            // Count self and peers.
            let has_more_than_half_the_votes = (self.volatile_state.votes as u128) * 2
                > (self.volatile_state.peers.len() as u128) + 1;

            if has_more_than_half_the_votes {
                self.change_role(Role::Leader);
                return ServerAction::Broadcast(Message::AppendEntries(
                    AppendEntriesPayload::heartbeat(self.current_term(), self.identity),
                ));
            }
        }
        ServerAction::Continue
    }

    /// An election timeout asks nothing more of the server.
    pub fn election_timeout_occurred(&self) -> (action: ServerAction)
        ensures
            action@ == ActionView::Continue,
    {
        ServerAction::Continue
    }
}

} // verus!
