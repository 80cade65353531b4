//! What the policy reads of one inbound update.

use vstd::prelude::*;
use crate::ids::{ChatId, MemberId, MessageId};

verus! {

/// A platform user, as an update names one.
#[derive(Clone, Copy, Debug, PartialEq, Eq, Structural)]
pub struct User {
    pub id: MemberId,
    pub is_bot: bool,
}

/// The shape of an update's payload.
#[derive(Clone, Debug, PartialEq, Eq)]
pub enum Payload {
    /// Users were added to the chat, in the order the platform delivered them.
    NewChatMembers(Vec<User>),
    /// A user left the chat.
    LeftChatMember(User),
    /// Anything else: text, edits, media, service messages of other kinds.
    Other,
}

/// Mathematical value of a [`Payload`].
pub enum PayloadView {
    NewChatMembers(Seq<User>),
    LeftChatMember(User),
    Other,
}

impl View for Payload {
    type V = PayloadView;

    open spec fn view(&self) -> PayloadView {
        match *self {
            Payload::NewChatMembers(users) => PayloadView::NewChatMembers(users@),
            Payload::LeftChatMember(user) => PayloadView::LeftChatMember(user),
            Payload::Other => PayloadView::Other,
        }
    }
}

/// One inbound update: the chat it occurred in, the message that carries it,
/// and its payload.
#[derive(Clone, Debug, PartialEq, Eq)]
pub struct Update {
    pub chat_id: ChatId,
    pub message_id: MessageId,
    pub payload: Payload,
}

/// Mathematical value of an [`Update`].
pub struct UpdateView {
    pub chat_id: ChatId,
    pub message_id: MessageId,
    pub payload: PayloadView,
}

impl View for Update {
    type V = UpdateView;

    open spec fn view(&self) -> UpdateView {
        UpdateView { chat_id: self.chat_id, message_id: self.message_id, payload: self.payload@ }
    }
}

} // verus!
