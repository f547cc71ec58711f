//! What holds of every server, whatever events reach it.
use vstd::prelude::*;
use crate::types::{Term, Role};
use crate::messages::{
    MessageView, RequestVotePayload, RequestVoteResultPayload, AppendEntriesView, Addressee, EnvelopeView,
};
use crate::server_action::ActionView;
use crate::model::{
    ServerView, is_majority, consider_vote, collect_vote, ensure_latest, append_entries,
    start_new_election, initial,
};
use crate::raft::{LoopEventView, RunActionView, TimeoutKind, can_handle, step, handle_timeout, route};
use crate::types::ServerIdentity;

verus! {

/// The term that a message carries; a stop message carries none.
pub open spec fn message_term(message: MessageView) -> Option<Term> {
    match message {
        MessageView::AppendEntries(ae) => Some(ae.term),
        MessageView::AppendEntriesResult(aer) => Some(aer.term),
        MessageView::RequestVote(rv) => Some(rv.term),
        MessageView::RequestVoteResult(rvr) => Some(rvr.term),
        MessageView::Stop => None,
    }
}

/// A candidate that receives append entries of its own term concedes: it
/// forgets its vote although its term stays the same.
pub open spec fn concedes(s: ServerView, event: LoopEventView) -> bool {
    &&& s.role == Role::Candidate
    &&& event matches LoopEventView::Received(envelope)
    &&& envelope.message matches MessageView::AppendEntries(ae)
    &&& ae.term == s.current_term
}

/// A server's term never goes back, whatever event it handles.
pub proof fn term_never_decreases(s: ServerView, event: LoopEventView)
    requires
        can_handle(s, event),
    ensures
        step(s, event).0.current_term >= s.current_term,
{
}

/// A server never changes its identity nor the peers it knows.
pub proof fn identity_and_peers_are_fixed(s: ServerView, event: LoopEventView)
    ensures
        step(s, event).0.identity == s.identity,
        step(s, event).0.peers == s.peers,
{
}

/// A server receiving a message catches up with the message's term: its
/// term becomes the later of the two, and a message of a later term makes
/// it a follower.
pub proof fn later_terms_are_adopted(s: ServerView, event: LoopEventView)
    requires
        event matches LoopEventView::Received(envelope) && message_term(envelope.message) is Some,
    ensures
        ({
            let term = message_term(event->Received_0.message)->0;
            let s1 = step(s, event).0;
            &&& s1.current_term == if term > s.current_term { term } else { s.current_term }
            &&& term > s.current_term ==> s1.role == Role::Follower
        }),
{
}

/// Once a server has voted, its vote stands as long as its term does,
/// except where a candidate concedes to a leader of its own term.
pub proof fn vote_stands_within_a_term(s: ServerView, event: LoopEventView)
    requires
        can_handle(s, event),
        s.voted_for is Some,
        step(s, event).0.current_term == s.current_term,
        !concedes(s, event),
    ensures
        step(s, event).0.voted_for == s.voted_for,
{
}

/// A server that has voted refuses every request for its vote that does
/// not bring a later term, and is left unchanged by it.
pub proof fn no_second_vote_in_a_term(s: ServerView, request: RequestVotePayload)
    requires
        s.voted_for is Some,
        request.term <= s.current_term,
    ensures
        consider_vote(s, request) == (
            s,
            ActionView::Reply(MessageView::RequestVoteResult(
                RequestVoteResultPayload { term: s.current_term, vote_granted: false },
            )),
        ),
{
}

/// Of two requests for a server's vote, the second is refused unless it
/// brings a term later than the one the first left the server in.
pub proof fn one_vote_for_two_requests(s: ServerView, first: RequestVotePayload, second: RequestVotePayload)
    requires
        second.term <= consider_vote(s, first).0.current_term,
    ensures
        ({
            let (s1, _) = consider_vote(s, first);
            let (s2, reply) = consider_vote(s1, second);
            &&& s2 == s1
            &&& reply == ActionView::Reply(MessageView::RequestVoteResult(
                RequestVoteResultPayload { term: s1.current_term, vote_granted: false },
            ))
        }),
{
}

/// A server answers a request for its vote with its own (possibly newly
/// adopted) term, and grants the vote exactly when it had not voted in
/// that term; a granted vote goes to the requesting candidate.
pub proof fn vote_replies_are_truthful(s: ServerView, request: RequestVotePayload)
    ensures
        ({
            let (s1, reply) = consider_vote(s, request);
            let granted = s.voted_for is None || request.term > s.current_term;
            &&& reply == ActionView::Reply(MessageView::RequestVoteResult(
                RequestVoteResultPayload { term: s1.current_term, vote_granted: granted },
            ))
            &&& granted ==> s1.voted_for == Some(request.candidate_id)
            &&& !granted ==> s1 == s
        }),
{
}

/// Catching up with a term twice is catching up once: the second time
/// changes nothing and reports no new term.
pub proof fn catching_up_is_idempotent(s: ServerView, term: Term)
    ensures
        ensure_latest(ensure_latest(s, term).0, term) == (ensure_latest(s, term).0, ActionView::Continue),
        ensure_latest(s, term).0.current_term >= term,
{
}

/// A server becomes leader only as a candidate or on an election timeout,
/// and only holding the votes of a majority of the cluster.
pub proof fn leaders_hold_a_majority(s: ServerView, event: LoopEventView)
    requires
        can_handle(s, event),
        s.role != Role::Leader,
        step(s, event).0.role == Role::Leader,
    ensures
        s.role == Role::Candidate || event is TimedOut,
        is_majority(step(s, event).0.votes as int, step(s, event).0.peers.len() as int),
{
}

/// Every message a server sends comes from it and carries its current
/// term, and every append entries it sends asserts its own leadership.
pub proof fn sent_messages_speak_for_the_current_term(s: ServerView, event: LoopEventView)
    requires
        can_handle(s, event),
        step(s, event).1 is Send,
    ensures
        ({
            let (s1, action) = step(s, event);
            let envelope = action->Send_0;
            &&& envelope.from == s.identity
            &&& message_term(envelope.message) == Some(s1.current_term)
            &&& envelope.message matches MessageView::AppendEntries(ae) ==> {
                &&& ae.leader_id == s.identity
                &&& s1.role == Role::Leader
            }
        }),
{
}

/// Only a candidate counts votes: any other server, or a candidate told of
/// a later term, just catches up with the term of a vote result.
pub proof fn only_candidates_count_votes(s: ServerView, result: RequestVoteResultPayload)
    requires
        !(s.role == Role::Candidate && result.term <= s.current_term),
    ensures
        collect_vote(s, result) == (ensure_latest(s, result.term).0, ActionView::Continue),
{
}

/// A timeout never asks the server to reply: there is no message to
/// answer.
pub proof fn timeouts_never_reply(s: ServerView)
    ensures
        !(handle_timeout(s).1 is Reply),
{
}

/// A stop message or a lost connection stops the server and leaves it as
/// it was.
pub proof fn stopping_leaves_the_server_unchanged(s: ServerView, event: LoopEventView)
    requires
        event is Disconnected
        || (event matches LoopEventView::Received(envelope) && envelope.message is Stop),
    ensures
        step(s, event) == (s, RunActionView::Stop),
{
}

/// `s` after it moved to the later term `term`: no vote, no followers, no
/// votes received, following.
pub open spec fn moved_to(s: ServerView, term: Term) -> ServerView {
    ServerView {
        identity: s.identity,
        current_term: term,
        voted_for: None,
        role: Role::Follower,
        peers: s.peers,
        followers: None,
        votes: 0,
    }
}

/// The empty append entries with which `leader` announces its leadership
/// of `term`.
pub open spec fn announcement(term: Term, leader: ServerIdentity) -> MessageView {
    MessageView::AppendEntries(AppendEntriesView {
        term,
        leader_id: leader,
        prev_log_index: 0,
        prev_log_term: 0,
        entries: Seq::empty(),
        leaders_commit: 0,
    })
}

/// Catching up with a term: a later term is adopted (the vote, the
/// followers and the received votes are forgotten and the server follows)
/// and reported as a new term; any other term changes nothing and is
/// reported as nothing new.
pub proof fn later_terms_are_reported_as_new(s: ServerView, term: Term)
    ensures
        term > s.current_term ==> ensure_latest(s, term) == (moved_to(s, term), ActionView::NewTerm),
        term <= s.current_term ==> ensure_latest(s, term) == (s, ActionView::Continue),
{
}

/// Append entries: a stale leader is ignored; a leader of the server's own
/// term makes a candidate concede (forgetting its vote and votes) and
/// leaves anyone else unchanged; a leader of a later term is followed in
/// that term. The server never answers.
pub proof fn append_entries_follow_the_leaders_term(s: ServerView, term: Term)
    ensures
        term < s.current_term ==> append_entries(s, term) == (s, ActionView::Continue),
        term == s.current_term && s.role == Role::Candidate
            ==> append_entries(s, term) == (moved_to(s, term), ActionView::Continue),
        term == s.current_term && s.role != Role::Candidate
            ==> append_entries(s, term) == (s, ActionView::Continue),
        term > s.current_term ==> append_entries(s, term) == (moved_to(s, term), ActionView::Continue),
{
}

/// A candidate counting a vote result of a term not later than its own
/// adds a granted vote to its count and leads exactly when the count is
/// more than half of the cluster (itself and its peers); it then announces
/// its leadership of its term, and otherwise stays a candidate and asks
/// for nothing. Nothing else about it changes.
pub proof fn candidates_lead_exactly_with_a_majority(s: ServerView, result: RequestVoteResultPayload)
    requires
        s.role == Role::Candidate,
        result.term <= s.current_term,
        result.vote_granted ==> s.votes < u32::MAX,
    ensures
        ({
            let count: int = if result.vote_granted { s.votes + 1 } else { s.votes as int };
            let (s1, action) = collect_vote(s, result);
            &&& s1.votes == count
            &&& s1.identity == s.identity
            &&& s1.current_term == s.current_term
            &&& s1.voted_for == s.voted_for
            &&& s1.peers == s.peers
            &&& s1.followers == s.followers
            &&& count * 2 > s.peers.len() + 1 ==> {
                &&& s1.role == Role::Leader
                &&& action == ActionView::Broadcast(announcement(s.current_term, s.identity))
            }
            &&& count * 2 <= s.peers.len() + 1 ==> {
                &&& s1.role == Role::Candidate
                &&& action == ActionView::Continue
            }
        }),
{
}

/// An election moves the server to the next term and records its vote for
/// itself, whatever its role and peers: alone it leads and announces its
/// leadership, with peers it is a candidate holding its own vote and asks
/// its peers for theirs.
pub proof fn elections_record_the_own_vote(s: ServerView)
    requires
        s.current_term < u64::MAX,
    ensures
        ({
            let term = (s.current_term + 1) as Term;
            let (s1, action) = start_new_election(s);
            &&& s1.current_term == s.current_term + 1
            &&& s1.voted_for == Some(s.identity)
            &&& s1.votes == 1
            &&& s1.followers is None
            &&& s1.identity == s.identity
            &&& s1.peers == s.peers
            &&& s.peers.len() == 0 ==> {
                &&& s1.role == Role::Leader
                &&& action == ActionView::Broadcast(announcement(term, s.identity))
            }
            &&& s.peers.len() > 0 ==> {
                &&& s1.role == Role::Candidate
                &&& action == ActionView::Broadcast(MessageView::RequestVote(
                    RequestVotePayload { term, candidate_id: s.identity, last_log_index: 0, last_log_term: 0 },
                ))
            }
        }),
{
}

/// The state of a server that takes part in an election: a candidate or a
/// leader has voted for itself and counted at least that vote, and a
/// leader holds more than half of the cluster's votes.
pub open spec fn campaign_consistent(s: ServerView) -> bool {
    &&& (s.role == Role::Candidate || s.role == Role::Leader) ==> {
        &&& s.voted_for == Some(s.identity)
        &&& s.votes >= 1
    }
    &&& s.role == Role::Leader ==> s.votes * 2 > s.peers.len() + 1
}

/// A started server is consistent, and every turn of its loop keeps it so:
/// a server never campaigns or leads without its own vote, nor leads
/// without a majority.
pub proof fn campaigns_stay_consistent(s: ServerView, event: LoopEventView, peers: Seq<ServerIdentity>)
    requires
        campaign_consistent(s),
        can_handle(s, event),
    ensures
        campaign_consistent(initial(s.identity, peers)),
        campaign_consistent(step(s, event).0),
{
}

/// Through the server's loop, every message reaches its handler:
/// - a vote result counted by a candidate whose count becomes a majority
///   makes it leader and broadcasts its announcement; short of a majority
///   the candidate keeps waiting with the new count;
/// - a request for the vote is answered to its sender, granted exactly
///   when the server had no vote in the (possibly newly adopted) term,
///   and a granted vote goes to the requesting candidate;
/// - append entries and their answers only move the server to a later
///   term (or make a candidate of the same term concede), and ask for
///   nothing.
pub proof fn messages_reach_their_handlers(s: ServerView, event: LoopEventView)
    requires
        can_handle(s, event),
        event is Received,
    ensures
        ({
            let envelope = event->Received_0;
            let (s1, action) = step(s, event);
            match envelope.message {
                MessageView::RequestVoteResult(result) => {
                    let count: int = if result.vote_granted { s.votes + 1 } else { s.votes as int };
                    s.role == Role::Candidate && result.term <= s.current_term ==> {
                        &&& s1.votes == count
                        &&& count * 2 > s.peers.len() + 1 ==> {
                            &&& s1.role == Role::Leader
                            &&& action == RunActionView::Send(EnvelopeView {
                                from: s.identity,
                                to: Addressee::Broadcast,
                                message: announcement(s.current_term, s.identity),
                            })
                        }
                        &&& count * 2 <= s.peers.len() + 1 ==> {
                            &&& s1.role == Role::Candidate
                            &&& action == RunActionView::Continue
                        }
                    }
                },
                MessageView::RequestVote(request) => {
                    let term = if request.term > s.current_term { request.term } else { s.current_term };
                    let granted = s.voted_for is None || request.term > s.current_term;
                    &&& s1.current_term == term
                    &&& action == RunActionView::Send(EnvelopeView {
                        from: s.identity,
                        to: Addressee::SingleServer(envelope.from),
                        message: MessageView::RequestVoteResult(
                            RequestVoteResultPayload { term, vote_granted: granted },
                        ),
                    })
                    &&& granted ==> s1.voted_for == Some(request.candidate_id)
                },
                MessageView::AppendEntries(ae) => {
                    &&& action == RunActionView::Continue
                    &&& ae.term < s.current_term ==> s1 == s
                    &&& ae.term > s.current_term ==> s1 == moved_to(s, ae.term)
                },
                MessageView::AppendEntriesResult(aer) => {
                    &&& action == RunActionView::Continue
                    &&& aer.term <= s.current_term ==> s1 == s
                    &&& aer.term > s.current_term ==> s1 == moved_to(s, aer.term)
                },
                MessageView::Stop => action == RunActionView::Stop && s1 == s,
            }
        }),
{
}

/// Through the server's loop, a timeout makes a leader broadcast its
/// announcement and change nothing, and makes any other server stand for
/// election in the next term with its own vote, broadcasting either its
/// announcement (alone) or its request for votes (with peers).
pub proof fn timeouts_lead_to_heartbeats_or_elections(s: ServerView)
    requires
        can_handle(s, LoopEventView::TimedOut),
    ensures
        ({
            let (s1, action) = step(s, LoopEventView::TimedOut);
            let term = (s.current_term + 1) as Term;
            &&& s.role == Role::Leader ==> {
                &&& s1 == s
                &&& action == RunActionView::Send(EnvelopeView {
                    from: s.identity,
                    to: Addressee::Broadcast,
                    message: announcement(s.current_term, s.identity),
                })
            }
            &&& s.role != Role::Leader ==> {
                &&& s1.current_term == s.current_term + 1
                &&& s1.voted_for == Some(s.identity)
                &&& s1.votes == 1
                &&& action == RunActionView::Send(EnvelopeView {
                    from: s.identity,
                    to: Addressee::Broadcast,
                    message: if s.peers.len() == 0 {
                        announcement(term, s.identity)
                    } else {
                        MessageView::RequestVote(
                            RequestVotePayload { term, candidate_id: s.identity, last_log_index: 0, last_log_term: 0 },
                        )
                    },
                })
            }
        }),
{
}

/// A new term resets the host's timeout: a leader waits for its next
/// heartbeat, any other server for a new election timeout.
pub proof fn new_terms_reset_the_timeout(s: ServerView, sender: Option<ServerIdentity>)
    ensures
        s.role == Role::Leader ==> route(s, ActionView::NewTerm, sender)
            == RunActionView::ResetTimeout(TimeoutKind::LeaderHeartbeat),
        s.role != Role::Leader ==> route(s, ActionView::NewTerm, sender)
            == RunActionView::ResetTimeout(TimeoutKind::Election),
{
}

} // verus!
