//! The moderation calls and the order in which an event asks for them.

use vstd::prelude::*;
use crate::event::ChatEventView;
use crate::ids::{ChatId, MemberId, MessageId};

verus! {

/// One call against the platform's bot interface.
#[derive(Clone, Copy, Debug, PartialEq, Eq, Structural)]
pub enum Action {
    /// Remove the member from the chat.
    RemoveMember(ChatId, MemberId),
    /// Lift the restriction that the removal left on the member.
    RestoreMember(ChatId, MemberId),
    /// Delete the message.
    DeleteMessage(ChatId, MessageId),
}

/// The calls for the joined members alone: for each member in list order its
/// removal, directly followed by its restoring.
pub open spec fn member_calls(chat: ChatId, members: Seq<MemberId>) -> Seq<Action> {
    Seq::new(
        2 * members.len(),
        |i: int|
            if i % 2 == 0 {
                Action::RemoveMember(chat, members[i / 2])
            } else {
                Action::RestoreMember(chat, members[i / 2])
            },
    )
}

/// Every call that `event` asks for in `chat`, in the order of issue. The
/// announcing message is deleted last, after every member has been dealt
/// with.
pub open spec fn plan(chat: ChatId, event: ChatEventView) -> Seq<Action> {
    match event {
        ChatEventView::NewMembers { members, trigger } => member_calls(chat, members).push(
            Action::DeleteMessage(chat, trigger),
        ),
        ChatEventView::MemberLeft { trigger } => seq![Action::DeleteMessage(chat, trigger)],
        ChatEventView::Other => Seq::empty(),
    }
}

/// How many calls of `calls` remove a member.
pub open spec fn removals(calls: Seq<Action>) -> nat {
    calls.filter(|a: Action| a is RemoveMember).len()
}

/// How many calls of `calls` restore a member.
pub open spec fn restorations(calls: Seq<Action>) -> nat {
    calls.filter(|a: Action| a is RestoreMember).len()
}

/// How many calls of `calls` delete a message.
pub open spec fn deletions(calls: Seq<Action>) -> nat {
    calls.filter(|a: Action| a is DeleteMessage).len()
}

/// Filtering a sequence that ends in `last`: `last` stays or goes, and the
/// rest is filtered as before.
proof fn filter_after_push(calls: Seq<Action>, last: Action, keep: spec_fn(Action) -> bool)
    ensures
        calls.push(last).filter(keep) == if keep(last) {
            calls.filter(keep).push(last)
        } else {
            calls.filter(keep)
        },
{
    reveal(Seq::filter);
    assert(calls.push(last).drop_last() =~= calls);
}

/// One more member adds its removal and its restoring at the end.
proof fn member_calls_after_push(chat: ChatId, members: Seq<MemberId>, last: MemberId)
    ensures
        member_calls(chat, members.push(last)) == member_calls(chat, members).push(
            Action::RemoveMember(chat, last),
        ).push(Action::RestoreMember(chat, last)),
{
    assert(member_calls(chat, members.push(last)) =~= member_calls(chat, members).push(
        Action::RemoveMember(chat, last),
    ).push(Action::RestoreMember(chat, last)));
}

/// The calls for `members` are as many removals and as many restorings as
/// there are members, and no deletion.
pub proof fn member_calls_counts(chat: ChatId, members: Seq<MemberId>)
    ensures
        removals(member_calls(chat, members)) == members.len(),
        restorations(member_calls(chat, members)) == members.len(),
        deletions(member_calls(chat, members)) == 0,
    decreases members.len(),
{
    if members.len() == 0 {
        reveal(Seq::filter);
        assert(member_calls(chat, members) =~= Seq::empty());
    } else {
        let earlier = members.drop_last();
        let last = members.last();
        let remove = Action::RemoveMember(chat, last);
        let restore = Action::RestoreMember(chat, last);
        let calls = member_calls(chat, earlier);
        assert(members =~= earlier.push(last));
        member_calls_after_push(chat, earlier, last);
        member_calls_counts(chat, earlier);
        filter_after_push(calls, remove, |a: Action| a is RemoveMember);
        filter_after_push(calls.push(remove), restore, |a: Action| a is RemoveMember);
        filter_after_push(calls, remove, |a: Action| a is RestoreMember);
        filter_after_push(calls.push(remove), restore, |a: Action| a is RestoreMember);
        filter_after_push(calls, remove, |a: Action| a is DeleteMessage);
        filter_after_push(calls.push(remove), restore, |a: Action| a is DeleteMessage);
    }
}

/// The first `2 * count` calls for joined members are the calls for the
/// first `count` of them alone.
pub proof fn new_members_plan_prefix(
    chat: ChatId,
    members: Seq<MemberId>,
    trigger: MessageId,
    count: int,
)
    requires
        0 <= count <= members.len(),
    ensures
        plan(chat, ChatEventView::NewMembers { members, trigger }).take(2 * count) == member_calls(
            chat,
            members.take(count),
        ),
{
    assert(plan(chat, ChatEventView::NewMembers { members, trigger }).take(2 * count)
        =~= member_calls(chat, members.take(count)));
}

/// The calls for an event with `members.len()` joined members: each member's
/// removal directly before its restoring, member after member in list order,
/// and the deletion of the announcing message last. That makes as many
/// removals and as many restorings as there are members, and one deletion.
/// With no member at all the deletion is the only call.
pub proof fn new_members_plan(chat: ChatId, members: Seq<MemberId>, trigger: MessageId)
    ensures
        ({
            let calls = plan(chat, ChatEventView::NewMembers { members, trigger });
            &&& calls.len() == 2 * members.len() + 1
            &&& forall|k: int|
                0 <= k < members.len() ==> calls[2 * k] == Action::RemoveMember(
                    chat,
                    #[trigger] members[k],
                ) && calls[2 * k + 1] == Action::RestoreMember(chat, members[k])
            &&& calls[2 * (members.len() as int)] == Action::DeleteMessage(chat, trigger)
            &&& removals(calls) == members.len()
            &&& restorations(calls) == members.len()
            &&& deletions(calls) == 1
        }),
{
    let delete = Action::DeleteMessage(chat, trigger);
    let calls = member_calls(chat, members);
    member_calls_counts(chat, members);
    filter_after_push(calls, delete, |a: Action| a is RemoveMember);
    filter_after_push(calls, delete, |a: Action| a is RestoreMember);
    filter_after_push(calls, delete, |a: Action| a is DeleteMessage);
}

/// The calls for a departure: the deletion of the announcing message, and
/// nothing else.
pub proof fn member_left_plan(chat: ChatId, trigger: MessageId)
    ensures
        ({
            let calls = plan(chat, ChatEventView::MemberLeft { trigger });
            &&& calls == seq![Action::DeleteMessage(chat, trigger)]
            &&& removals(calls) == 0
            &&& restorations(calls) == 0
            &&& deletions(calls) == 1
        }),
{
    let delete = Action::DeleteMessage(chat, trigger);
    reveal(Seq::filter);
    assert(seq![delete] =~= Seq::<Action>::empty().push(delete));
    filter_after_push(Seq::empty(), delete, |a: Action| a is RemoveMember);
    filter_after_push(Seq::empty(), delete, |a: Action| a is RestoreMember);
    filter_after_push(Seq::empty(), delete, |a: Action| a is DeleteMessage);
}

/// Any other event asks for no call.
pub proof fn other_plan(chat: ChatId)
    ensures
        plan(chat, ChatEventView::Other).len() == 0,
{
}

} // verus!
