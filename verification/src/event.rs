//! Classification of an update into the event the policy reacts to.

use vstd::prelude::*;
use crate::ids::{MemberId, MessageId};
use crate::update::{Payload, PayloadView, Update, UpdateView, User};

verus! {

/// What an update means to the moderation policy.
#[derive(Clone, Debug, PartialEq, Eq)]
pub enum ChatEvent {
    /// Members joined; `trigger` is the system message that announces it.
    NewMembers { members: Vec<MemberId>, trigger: MessageId },
    /// A member left; `trigger` is the system message that announces it.
    MemberLeft { trigger: MessageId },
    /// Nothing the policy reacts to.
    Other,
}

/// Mathematical value of a [`ChatEvent`].
pub enum ChatEventView {
    NewMembers { members: Seq<MemberId>, trigger: MessageId },
    MemberLeft { trigger: MessageId },
    Other,
}

impl View for ChatEvent {
    type V = ChatEventView;

    open spec fn view(&self) -> ChatEventView {
        match *self {
            ChatEvent::NewMembers { members, trigger } => ChatEventView::NewMembers {
                members: members@,
                trigger,
            },
            ChatEvent::MemberLeft { trigger } => ChatEventView::MemberLeft { trigger },
            ChatEvent::Other => ChatEventView::Other,
        }
    }
}

/// The identities of `users`, in the same order.
pub open spec fn member_ids(users: Seq<User>) -> Seq<MemberId> {
    Seq::new(users.len(), |i: int| users[i].id)
}

/// The members that `update` reports as having joined, if it reports any
/// joining at all.
pub open spec fn joined_members(update: UpdateView) -> Option<Seq<MemberId>> {
    match update.payload {
        PayloadView::NewChatMembers(users) => Some(member_ids(users)),
        _ => None,
    }
}

/// The event that `update` stands for.
pub open spec fn classified(update: UpdateView) -> ChatEventView {
    match update.payload {
        PayloadView::NewChatMembers(users) => ChatEventView::NewMembers {
            members: member_ids(users),
            trigger: update.message_id,
        },
        PayloadView::LeftChatMember(_) => ChatEventView::MemberLeft { trigger: update.message_id },
        PayloadView::Other => ChatEventView::Other,
    }
}

/// Extracts the identity of every user that `update` reports as added,
/// keeping the delivery order. `None` when the update is not about added
/// members.
pub fn get_new_chat_members(update: &Update) -> (ids: Option<Vec<MemberId>>)
    ensures
        ids is Some <==> update@.payload is NewChatMembers,
        ids is Some <==> joined_members(update@) is Some,
        ids is Some ==> ids->Some_0@ == joined_members(update@)->Some_0,
{
    match &update.payload {
        Payload::NewChatMembers(users) => {
            let mut ids: Vec<MemberId> = Vec::new();
            let mut i: usize = 0;
            while i < users.len()
                invariant
                    i <= users.len(),
                    ids@ == member_ids(users@.take(i as int)),
                decreases users.len() - i,
            {
                ids.push(users[i].id);
                i = i + 1;
                assert(ids@ =~= member_ids(users@.take(i as int)));
            }
            assert(users@.take(i as int) =~= users@);
            Some(ids)
        },
        _ => None,
    }
}

/// Classifies one update. Never fails: an update that is neither about added
/// members nor about a departure is [`ChatEvent::Other`].
pub fn classify(update: &Update) -> (event: ChatEvent)
    ensures
        event@ == classified(update@),
{
    match get_new_chat_members(update) {
        Some(members) => ChatEvent::NewMembers { members, trigger: update.message_id },
        None => match &update.payload {
            Payload::LeftChatMember(_) => ChatEvent::MemberLeft { trigger: update.message_id },
            _ => ChatEvent::Other,
        },
    }
}

/// Classification depends on nothing but the update: two updates of equal
/// value stand for the same event, so classifying one update twice gives the
/// same event twice.
pub proof fn classification_is_a_function(first: Update, second: Update)
    requires
        first@ == second@,
    ensures
        classified(first@) == classified(second@),
{
}

} // verus!
