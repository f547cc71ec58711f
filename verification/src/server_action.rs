//! What a server asks its host to do after handling an event.
use vstd::prelude::*;
use crate::messages::{Message, MessageView};

verus! {

#[derive(PartialEq, Debug)]
pub enum ServerAction {
    Continue,
    Broadcast(Message),
    Reply(Message),
    NewTerm,
    Stop,
}

/// The mathematical value of a `ServerAction`.
pub enum ActionView {
    Continue,
    Broadcast(MessageView),
    Reply(MessageView),
    NewTerm,
    Stop,
}

impl View for ServerAction {
    type V = ActionView;

    open spec fn view(&self) -> ActionView {
        match self {
            ServerAction::Continue => ActionView::Continue,
            ServerAction::Broadcast(m) => ActionView::Broadcast(m@),
            ServerAction::Reply(m) => ActionView::Reply(m@),
            ServerAction::NewTerm => ActionView::NewTerm,
            ServerAction::Stop => ActionView::Stop,
        }
    }
}

} // verus!
