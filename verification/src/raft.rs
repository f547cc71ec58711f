//! The host's view of a server: the events that reach it, and what the
//! host must do after each. The host process waits for messages and
//! timeouts and performs the sends; `Raft::step` decides.
use vstd::prelude::*;
use crate::types::{ServerIdentity, Role};
use crate::messages::{Message, MessageView, Envelope, EnvelopeView, Addressee};
use crate::server_action::{ServerAction, ActionView};
use crate::server::Server;
use crate::model;
use crate::model::ServerView;

verus! {

pub struct Raft {}

/// What the host observed while waiting for the server's next message.
pub enum LoopEvent {
    /// A message arrived.
    Received(Envelope),
    /// The timeout passed without a message.
    TimedOut,
    /// Nobody can send to the server any more.
    Disconnected,
}

/// The mathematical value of a `LoopEvent`.
pub enum LoopEventView {
    Received(EnvelopeView),
    TimedOut,
    Disconnected,
}

impl View for LoopEvent {
    type V = LoopEventView;

    open spec fn view(&self) -> LoopEventView {
        match self {
            LoopEvent::Received(envelope) => LoopEventView::Received(envelope@),
            LoopEvent::TimedOut => LoopEventView::TimedOut,
            LoopEvent::Disconnected => LoopEventView::Disconnected,
        }
    }
}

/// Which timeout the host waits with from now on.
#[derive(PartialEq, Eq, Structural, Clone, Copy, Debug)]
pub enum TimeoutKind {
    /// The interval between a leader's heartbeats.
    LeaderHeartbeat,
    /// A new random election timeout.
    Election,
}

/// What the host must do after an event.
#[derive(PartialEq, Debug)]
pub enum RunAction {
    /// Send the envelope.
    Send(Envelope),
    /// Wait with a new timeout from now on.
    ResetTimeout(TimeoutKind),
    /// Stop running the server.
    Stop,
    /// Wait for the next message with the same timeout.
    Continue,
}

/// The mathematical value of a `RunAction`.
pub enum RunActionView {
    Send(EnvelopeView),
    ResetTimeout(TimeoutKind),
    Stop,
    Continue,
}

impl View for RunAction {
    type V = RunActionView;

    open spec fn view(&self) -> RunActionView {
        match self {
            RunAction::Send(envelope) => RunActionView::Send(envelope@),
            RunAction::ResetTimeout(kind) => RunActionView::ResetTimeout(*kind),
            RunAction::Stop => RunActionView::Stop,
            RunAction::Continue => RunActionView::Continue,
        }
    }
}

/// The handler that each message goes to; a stop message stops the server.
pub open spec fn handle_message(s: ServerView, message: MessageView) -> (ServerView, ActionView) {
    match message {
        MessageView::AppendEntries(ae) => model::append_entries(s, ae.term),
        MessageView::AppendEntriesResult(aer) => model::append_entries_result(s, aer.term),
        MessageView::RequestVote(rv) => model::consider_vote(s, rv),
        MessageView::RequestVoteResult(rvr) => model::collect_vote(s, rvr),
        MessageView::Stop => (s, ActionView::Stop),
    }
}

/// On a timeout a leader sends its heartbeat; any other server starts an
/// election.
pub open spec fn handle_timeout(s: ServerView) -> (ServerView, ActionView) {
    if s.role == Role::Leader {
        (s, model::heartbeat_action(s))
    } else {
        model::start_new_election(s)
    }
}

/// What the server does on an event, and asks of its host.
pub open spec fn handle_event(s: ServerView, event: LoopEventView) -> (ServerView, ActionView) {
    match event {
        LoopEventView::Received(envelope) => handle_message(s, envelope.message),
        LoopEventView::TimedOut => handle_timeout(s),
        LoopEventView::Disconnected => (s, ActionView::Stop),
    }
}

/// The events whose handling keeps the term and the vote count within
/// their integer types: a vote that is counted still fits the count, and
/// an election still has a next term.
pub open spec fn can_handle(s: ServerView, event: LoopEventView) -> bool {
    match event {
        LoopEventView::Received(envelope) => match envelope.message {
            MessageView::RequestVoteResult(rvr) => model::counts_vote(s, rvr) ==> s.votes < u32::MAX,
            _ => true,
        },
        LoopEventView::TimedOut => s.role == Role::Leader || s.current_term < u64::MAX,
        LoopEventView::Disconnected => true,
    }
}

/// The sender of the message that an event brought, if any.
pub open spec fn sender_of(event: LoopEventView) -> Option<ServerIdentity> {
    match event {
        LoopEventView::Received(envelope) => Some(envelope.from),
        _ => None,
    }
}

/// How a server's action reaches the network: broadcasts to everyone,
/// replies to the sender of the message being answered, both from the
/// server; a new term resets the timeout, to the heartbeat interval for a
/// leader and to a new election timeout otherwise. (A reply has no
/// addressee without a received message; no server asks for one then, see
/// `laws::timeouts_never_reply`.)
pub open spec fn route(s: ServerView, action: ActionView, sender: Option<ServerIdentity>) -> RunActionView {
    match action {
        ActionView::NewTerm => RunActionView::ResetTimeout(
            if s.role == Role::Leader { TimeoutKind::LeaderHeartbeat } else { TimeoutKind::Election },
        ),
        ActionView::Broadcast(message) => RunActionView::Send(
            EnvelopeView { from: s.identity, to: Addressee::Broadcast, message },
        ),
        ActionView::Reply(message) => match sender {
            Some(from) => RunActionView::Send(
                EnvelopeView { from: s.identity, to: Addressee::SingleServer(from), message },
            ),
            None => RunActionView::Stop,
        },
        ActionView::Stop => RunActionView::Stop,
        ActionView::Continue => RunActionView::Continue,
    }
}

/// One turn of the server's loop: handle the event, then route the action.
pub open spec fn step(s: ServerView, event: LoopEventView) -> (ServerView, RunActionView) {
    let (s1, action) = handle_event(s, event);
    (s1, route(s1, action, sender_of(event)))
}

impl Raft {
    /// Whether `event` can be handled by `server` (see `can_handle`).
    pub fn can_handle(server: &Server, event: &LoopEvent) -> (handled: bool)
        ensures
            handled == can_handle(server@, event@),
    {
        match event {
            LoopEvent::Received(envelope) => match &envelope.message {
                Message::RequestVoteResult(rvr) => !(server.current_role() == Role::Candidate
                    && rvr.vote_granted && rvr.term <= server.current_term())
                    || server.volatile_state.votes < u32::MAX,
                _ => true,
            },
            LoopEvent::TimedOut => server.current_role() == Role::Leader
                || server.current_term() < u64::MAX,
            LoopEvent::Disconnected => true,
        }
    }

    /// Hands the event to the server's handler for it.
    pub fn handle_event(server: &mut Server, event: &LoopEvent) -> (action: ServerAction)
        requires
            can_handle(old(server)@, event@),
        ensures
            (final(server)@, action@) == handle_event(old(server)@, event@),
    {
        match event {
            LoopEvent::Received(envelope) => match &envelope.message {
                Message::AppendEntries(ae) => server.append_entries(ae),
                Message::AppendEntriesResult(aer) => server.append_entries_result(aer),
                Message::RequestVote(rv) => server.consider_vote_request(rv),
                Message::RequestVoteResult(rvr) => server.collect_vote(rvr),
                Message::Stop => ServerAction::Stop,
            },
            LoopEvent::TimedOut => match server.current_role() {
                Role::Leader => server.broadcast_heartbeat(),
                Role::Follower | Role::Candidate => server.start_new_election(),
            },
            LoopEvent::Disconnected => ServerAction::Stop,
        }
    }

    /// Turns the server's action into what the host must do; `sender` is
    /// the sender of the message being answered.
    pub fn route(server: &Server, action: ServerAction, sender: Option<ServerIdentity>) -> (run_action: RunAction)
        requires
            action is Reply ==> sender is Some,
        ensures
            run_action@ == route(server@, action@, sender),
    {
        match action {
            ServerAction::NewTerm => RunAction::ResetTimeout(
                match server.current_role() {
                    Role::Leader => TimeoutKind::LeaderHeartbeat,
                    _ => TimeoutKind::Election,
                },
            ),
            ServerAction::Broadcast(message) => RunAction::Send(
                Envelope { from: server.get_identity(), to: Addressee::Broadcast, message },
            ),
            ServerAction::Reply(message) => match sender {
                Some(from) => RunAction::Send(
                    Envelope { from: server.get_identity(), to: Addressee::SingleServer(from), message },
                ),
                None => RunAction::Stop,
            },
            ServerAction::Stop => RunAction::Stop,
            ServerAction::Continue => RunAction::Continue,
        }
    }

    /// One turn of the server's loop.
    pub fn step(server: &mut Server, event: &LoopEvent) -> (run_action: RunAction)
        requires
            can_handle(old(server)@, event@),
        ensures
            (final(server)@, run_action@) == step(old(server)@, event@),
    {
        let action = Raft::handle_event(server, event);
        let sender = match event {
            LoopEvent::Received(envelope) => Some(envelope.from),
            _ => None,
        };
        Raft::route(server, action, sender)
    }
}

} // verus!
