//! The server as a mathematical state machine: its state, and what each
//! event does to it and asks of the host.
use vstd::prelude::*;
use crate::types::{Term, ServerIdentity, Role};
use crate::messages::{MessageView, RequestVotePayload, RequestVoteResultPayload, heartbeat_view};
use crate::server_action::ActionView;

verus! {

/// A peer's replication progress, as the leader tracks it.
#[derive(PartialEq, Eq, Structural, Clone, Copy, Debug)]
pub struct Follower {
    pub id: ServerIdentity,
    pub next_index: u64,
    pub match_index: u64,
}

/// The abstract state of a server.
pub struct ServerView {
    pub identity: ServerIdentity,
    pub current_term: Term,
    pub voted_for: Option<ServerIdentity>,
    pub role: Role,
    pub peers: Seq<ServerIdentity>,
    pub followers: Option<Seq<Follower>>,
    pub votes: u32,
}

/// A server is out of date when another server carries a later term.
pub open spec fn out_of_date(my_term: Term, other_term: Term) -> bool {
    other_term > my_term
}

/// Votes that are more than half of the cluster: this server and its peers.
pub open spec fn is_majority(votes: int, peer_count: int) -> bool {
    votes * 2 > peer_count + 1
}

/// A server that has just started: term 1, no vote, following.
pub open spec fn initial(identity: ServerIdentity, peers: Seq<ServerIdentity>) -> ServerView {
    ServerView {
        identity,
        current_term: 1,
        voted_for: None,
        role: Role::Follower,
        peers,
        followers: None,
        votes: 0,
    }
}

/// The server moved to `term`: its vote, its followers and the votes it
/// received are forgotten and it follows.
pub open spec fn enter_term(s: ServerView, term: Term) -> ServerView {
    ServerView {
        current_term: term,
        voted_for: None,
        followers: None,
        votes: 0,
        role: Role::Follower,
        ..s
    }
}

/// The server in role `role`.
pub open spec fn with_role(s: ServerView, role: Role) -> ServerView {
    ServerView { role, ..s }
}

/// A message with a later term moves the server to that term.
pub open spec fn ensure_latest(s: ServerView, term: Term) -> (ServerView, ActionView) {
    if out_of_date(s.current_term, term) {
        (enter_term(s, term), ActionView::NewTerm)
    } else {
        (s, ActionView::Continue)
    }
}

/// The heartbeat that leader `s` broadcasts.
pub open spec fn heartbeat_action(s: ServerView) -> ActionView {
    ActionView::Broadcast(MessageView::AppendEntries(heartbeat_view(s.current_term, s.identity)))
}

/// Append entries from a leader of `term`: the server catches up with the
/// term, and a candidate of the same term concedes and follows.
pub open spec fn append_entries(s: ServerView, term: Term) -> (ServerView, ActionView) {
    let s1 = ensure_latest(s, term).0;
    if s1.role == Role::Candidate && s1.current_term <= term {
        (enter_term(s1, term), ActionView::Continue)
    } else {
        (s1, ActionView::Continue)
    }
}

/// The answer of a follower to append entries: the server catches up with
/// the term.
pub open spec fn append_entries_result(s: ServerView, term: Term) -> (ServerView, ActionView) {
    (ensure_latest(s, term).0, ActionView::Continue)
}

/// A request for this server's vote: after catching up with the term, the
/// server grants the vote if it has not voted in its current term, and
/// answers with its term and whether the vote was granted.
pub open spec fn consider_vote(s: ServerView, request: RequestVotePayload) -> (ServerView, ActionView) {
    let s1 = ensure_latest(s, request.term).0;
    let granted = s1.voted_for is None;
    let s2 = if granted { ServerView { voted_for: Some(request.candidate_id), ..s1 } } else { s1 };
    let reply = RequestVoteResultPayload { term: s1.current_term, vote_granted: granted };
    (s2, ActionView::Reply(MessageView::RequestVoteResult(reply)))
}

/// Whether the answer `result` adds a vote to the count of `s`: it grants
/// the vote of a term that is not later than the server's, and the server
/// is a candidate.
pub open spec fn counts_vote(s: ServerView, result: RequestVoteResultPayload) -> bool {
    &&& s.role == Role::Candidate
    &&& result.vote_granted
    &&& result.term <= s.current_term
}

/// An answer to this server's request for votes: after catching up with
/// the term, a candidate counts a granted vote, and becomes leader and
/// broadcasts its heartbeat once it holds a majority.
pub open spec fn collect_vote(s: ServerView, result: RequestVoteResultPayload) -> (ServerView, ActionView) {
    let s1 = ensure_latest(s, result.term).0;
    if s1.role == Role::Candidate {
        let votes = if result.vote_granted { (s1.votes + 1) as u32 } else { s1.votes };
        let s2 = ServerView { votes, ..s1 };
        if is_majority(votes as int, s1.peers.len() as int) {
            let s3 = with_role(s2, Role::Leader);
            (s3, heartbeat_action(s3))
        } else {
            (s2, ActionView::Continue)
        }
    } else {
        (s1, ActionView::Continue)
    }
}

/// The request for votes of a candidate.
pub open spec fn vote_request(term: Term, candidate: ServerIdentity) -> RequestVotePayload {
    RequestVotePayload { term, candidate_id: candidate, last_log_index: 0, last_log_term: 0 }
}

/// A new election: the server moves to the next term and votes for
/// itself. Alone, it then holds a majority, leads and broadcasts its
/// heartbeat; with peers it is a candidate and broadcasts its request for
/// votes.
pub open spec fn start_new_election(s: ServerView) -> (ServerView, ActionView) {
    let term = (s.current_term + 1) as Term;
    let alone = s.peers.len() == 0;
    let s1 = ServerView {
        current_term: term,
        voted_for: Some(s.identity),
        role: if alone { Role::Leader } else { Role::Candidate },
        followers: None,
        votes: 1,
        ..s
    };
    let action = if alone {
        heartbeat_action(s1)
    } else {
        ActionView::Broadcast(MessageView::RequestVote(vote_request(term, s.identity)))
    };
    (s1, action)
}

} // verus!
