//! The messages that servers exchange, and their mathematical views.
use vstd::prelude::*;
use crate::types::{Term, LogIndex, ServerIdentity};
use crate::role;

verus! {

/// A message that carries the sender's term.
pub trait Payload {
    /// The term carried by the payload.
    spec fn spec_term(&self) -> Term;

    /// Returns the term carried by the payload.
    fn term(&self) -> (term: Term)
        ensures
            term == self.spec_term(),
    ;
}

#[derive(Eq, PartialEq, Clone, Debug)]
pub struct AppendEntriesPayload {
    /// leader's term
    pub term: Term,
    /// so follower can redirect clients
    pub leader_id: ServerIdentity,
    /// index of log entry immediately preceding new ones
    pub prev_log_index: LogIndex,
    /// term of prevLogIndex entry
    pub prev_log_term: Term,
    /// log entries to store (empty for heartbeat; may send more than one for efficiency)
    pub entries: Vec<Vec<u8>>,
    /// leader's commitIndex
    pub leaders_commit: LogIndex,
}

/// The mathematical value of an `AppendEntriesPayload`: its entries as
/// sequences of bytes.
pub struct AppendEntriesView {
    pub term: Term,
    pub leader_id: ServerIdentity,
    pub prev_log_index: LogIndex,
    pub prev_log_term: Term,
    pub entries: Seq<Seq<u8>>,
    pub leaders_commit: LogIndex,
}

impl View for AppendEntriesPayload {
    type V = AppendEntriesView;

    open spec fn view(&self) -> AppendEntriesView {
        AppendEntriesView {
            term: self.term,
            leader_id: self.leader_id,
            prev_log_index: self.prev_log_index,
            prev_log_term: self.prev_log_term,
            entries: self.entries.deep_view(),
            leaders_commit: self.leaders_commit,
        }
    }
}

/// The empty append-entries message with which a leader asserts its
/// leadership for `term`.
pub open spec fn heartbeat_view(term: Term, leader_id: ServerIdentity) -> AppendEntriesView {
    AppendEntriesView {
        term,
        leader_id,
        prev_log_index: 0,
        prev_log_term: 0,
        entries: Seq::empty(),
        leaders_commit: 0,
    }
}

impl AppendEntriesPayload {
    /// The heartbeat of the leader `leader_id` in `term`: no entries, and
    /// zero for the log positions.
    pub fn heartbeat(term: Term, leader_id: ServerIdentity) -> (payload: AppendEntriesPayload)
        ensures
            payload@ == heartbeat_view(term, leader_id),
    {
        let payload = AppendEntriesPayload {
            term,
            leader_id,
            prev_log_index: 0,
            prev_log_term: 0,
            entries: Vec::new(),
            leaders_commit: 0,
        };
        assert(payload.entries.deep_view() =~= Seq::<Seq<u8>>::empty());
        payload
    }
}

impl Payload for AppendEntriesPayload {
    open spec fn spec_term(&self) -> Term {
        self.term
    }

    fn term(&self) -> (term: Term) {
        self.term
    }
}

#[derive(Eq, PartialEq, Structural, Clone, Copy, Debug)]
pub struct AppendEntriesResultPayload {
    /// currentTerm, for leader to update itself
    pub term: Term,
    /// true if follower contained entry matching prevLogIndex and prevLogTerm
    pub success: bool,
}

impl Payload for AppendEntriesResultPayload {
    open spec fn spec_term(&self) -> Term {
        self.term
    }

    fn term(&self) -> (term: Term) {
        self.term
    }
}

#[derive(Eq, PartialEq, Structural, Clone, Copy, Debug)]
pub struct RequestVotePayload {
    /// candidate's term
    pub term: Term,
    /// candidate requesting vote
    pub candidate_id: ServerIdentity,
    /// index of candidate's last log entry
    pub last_log_index: LogIndex,
    /// term of candidate's last log entry
    pub last_log_term: Term,
}

impl Payload for RequestVotePayload {
    open spec fn spec_term(&self) -> Term {
        self.term
    }

    fn term(&self) -> (term: Term) {
        self.term
    }
}

#[derive(Eq, PartialEq, Structural, Clone, Copy, Debug)]
pub struct RequestVoteResultPayload {
    /// currentTerm, for candidate to update itself
    pub term: Term,
    /// true means candidate received vote
    pub vote_granted: bool,
}

impl Payload for RequestVoteResultPayload {
    open spec fn spec_term(&self) -> Term {
        self.term
    }

    fn term(&self) -> (term: Term) {
        self.term
    }
}

#[derive(Eq, PartialEq, Structural, Clone, Copy, Debug)]
pub struct RequestToFollowPayload {
    /// Supplicate server requesting membership
    pub supplicant_id: ServerIdentity,
}

#[derive(Eq, PartialEq, Structural, Clone, Copy, Debug)]
pub struct RequestToFollowResultPayload {
    /// Supplicate server requesting membership
    pub supplicant_id: ServerIdentity,
    /// Outcome of request to follow.
    pub outcome: SupplicationResult,
}

#[derive(Eq, PartialEq, Structural, Clone, Copy, Debug)]
pub enum SupplicationResult {
    Granted,
    Rejected,
    NotTheLeader,
}

/// What a node reports of itself.
#[derive(Eq, PartialEq, Structural, Clone, Copy, Debug)]
pub struct Status {
    /// leader's term
    pub term: Term,
    /// server role
    pub role: role::Role,
    /// commit index
    pub commit_index: LogIndex,
}

/// A message that a node receives.
#[derive(Eq, PartialEq, Clone, Debug)]
pub enum InwardMessage {
    AppendEntries(AppendEntriesPayload),
    AppendEntriesResult(AppendEntriesResultPayload),
    RequestVote(RequestVotePayload),
    RequestVoteResult(RequestVoteResultPayload),
    RequestToFollow(RequestToFollowPayload),
    RequestToFollowResult(RequestToFollowResultPayload),
    Stop,
}

/// A message that a node sends.
#[derive(Eq, PartialEq, Clone, Debug)]
pub enum OutwardMessage {
    AppendEntries(AppendEntriesPayload),
    AppendEntriesResult(AppendEntriesResultPayload),
    RequestVote(RequestVotePayload),
    RequestVoteResult(RequestVoteResultPayload),
    RequestToFollow(RequestToFollowPayload),
    RequestToFollowResult(RequestToFollowResultPayload),
}

/// A message between servers.
#[derive(Eq, PartialEq, Clone, Debug)]
pub enum Message {
    AppendEntries(AppendEntriesPayload),
    AppendEntriesResult(AppendEntriesResultPayload),
    RequestVote(RequestVotePayload),
    RequestVoteResult(RequestVoteResultPayload),
    Stop,
}

/// The mathematical value of a `Message`.
pub enum MessageView {
    AppendEntries(AppendEntriesView),
    AppendEntriesResult(AppendEntriesResultPayload),
    RequestVote(RequestVotePayload),
    RequestVoteResult(RequestVoteResultPayload),
    Stop,
}

impl View for Message {
    type V = MessageView;

    open spec fn view(&self) -> MessageView {
        match self {
            Message::AppendEntries(ae) => MessageView::AppendEntries(ae@),
            Message::AppendEntriesResult(aer) => MessageView::AppendEntriesResult(*aer),
            Message::RequestVote(rv) => MessageView::RequestVote(*rv),
            Message::RequestVoteResult(rvr) => MessageView::RequestVoteResult(*rvr),
            Message::Stop => MessageView::Stop,
        }
    }
}

/// To whom a message is sent.
#[derive(Eq, PartialEq, Structural, Clone, Copy, Debug)]
pub enum Addressee {
    Broadcast,
    SingleServer(ServerIdentity),
}

/// A message with its sender and its addressee.
#[derive(Eq, PartialEq, Clone, Debug)]
pub struct Envelope {
    pub from: ServerIdentity,
    pub to: Addressee,
    pub message: Message,
}

/// The mathematical value of an `Envelope`.
pub struct EnvelopeView {
    pub from: ServerIdentity,
    pub to: Addressee,
    pub message: MessageView,
}

impl View for Envelope {
    type V = EnvelopeView;

    open spec fn view(&self) -> EnvelopeView {
        EnvelopeView { from: self.from, to: self.to, message: self.message@ }
    }
}

} // verus!
