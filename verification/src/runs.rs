//! Whole runs of a sequence: what was issued, and what is reported, once the
//! answers to its calls are known.
//!
//! A run is the replay of the answers, one per issued call, from the start of
//! the sequence. Answers beyond the end of the sequence belong to no call and
//! change nothing.

use vstd::prelude::*;
use crate::error::{failure_of, SequenceError};
use crate::event::ChatEventView;
use crate::ids::{ChatId, MemberId, MessageId};
use crate::plan::{
    deletions, member_calls, member_calls_counts, member_left_plan, new_members_plan,
    new_members_plan_prefix, plan, removals, restorations, Action,
};
use crate::sequencer::{FailurePolicy, Progress};

verus! {

/// One call's answer from the client.
pub type Answer = Result<(), carapax::ExecuteError>;

/// The failures among the first `answers.len()` calls of `calls`, oldest
/// first.
pub open spec fn failures_among(calls: Seq<Action>, answers: Seq<Answer>) -> Seq<SequenceError>
    decreases answers.len(),
{
    if answers.len() == 0 {
        Seq::empty()
    } else {
        let earlier = failures_among(calls, answers.drop_last());
        match answers.last() {
            Ok(_) => earlier,
            Err(cause) => earlier.push(failure_of(calls[answers.len() - 1], cause)),
        }
    }
}

/// Whether nothing among `answers` ends a sequence under `policy`.
pub open spec fn uninterrupted(policy: FailurePolicy, answers: Seq<Answer>) -> bool {
    policy == FailurePolicy::Continue || forall|i: int|
        0 <= i < answers.len() ==> (#[trigger] answers[i]) is Ok
}

/// Once nothing is pending, further answers change nothing.
pub proof fn finished_sequence_ignores_answers(state: Progress, answers: Seq<Answer>)
    requires
        state.pending() is None,
    ensures
        state.replay(answers) == state,
    decreases answers.len(),
{
    if answers.len() > 0 {
        finished_sequence_ignores_answers(state, answers.drop_last());
    }
}

/// Replaying `first + rest` is replaying `first`, then `rest`.
pub proof fn replay_in_two_parts(state: Progress, first: Seq<Answer>, rest: Seq<Answer>)
    ensures
        state.replay(first + rest) == state.replay(first).replay(rest),
    decreases rest.len(),
{
    if rest.len() == 0 {
        assert(first + rest =~= first);
    } else {
        replay_in_two_parts(state, first, rest.drop_last());
        assert((first + rest).drop_last() =~= first + rest.drop_last());
        assert((first + rest).last() == rest.last());
    }
}

/// While nothing ends the sequence, every answer belongs to the next call of
/// the plan: after `answers.len()` answers, that many calls have been issued,
/// and the failures among them are kept in order.
pub proof fn uninterrupted_run(calls: Seq<Action>, policy: FailurePolicy, answers: Seq<Answer>)
    requires
        answers.len() <= calls.len(),
        uninterrupted(policy, answers),
    ensures
        Progress::start(calls, policy).replay(answers) == (Progress {
            plan: calls,
            policy,
            answered: answers.len(),
            failures: failures_among(calls, answers),
            halted: false,
        }),
    decreases answers.len(),
{
    if answers.len() > 0 {
        let earlier = answers.drop_last();
        assert forall|i: int| 0 <= i < earlier.len() && policy != FailurePolicy::Continue implies (
        #[trigger] earlier[i]) is Ok by {
            assert(earlier[i] == answers[i]);
        }
        uninterrupted_run(calls, policy, earlier);
        if policy != FailurePolicy::Continue {
            assert(answers[answers.len() - 1] is Ok);
        }
    }
}

/// If no call fails, or under [`FailurePolicy::Continue`] whatever fails,
/// every call of the plan is issued, in the plan's order, and the sequence
/// reports success. Under [`FailurePolicy::Continue`] the failures of the
/// failed calls are left for the log.
pub proof fn complete_run(calls: Seq<Action>, policy: FailurePolicy, answers: Seq<Answer>)
    requires
        answers.len() >= calls.len(),
        uninterrupted(policy, answers.take(calls.len() as int)),
    ensures
        ({
            let end = Progress::start(calls, policy).replay(answers);
            &&& end.issued() == calls
            &&& end.pending() is None
            &&& end.result() == Ok::<(), SequenceError>(())
            &&& end.failures == failures_among(calls, answers.take(calls.len() as int))
            &&& policy == FailurePolicy::Continue ==> end.logged() == end.failures
        }),
{
    let counted = answers.take(calls.len() as int);
    let beyond = answers.skip(calls.len() as int);
    let start = Progress::start(calls, policy);
    assert(answers =~= counted + beyond);
    replay_in_two_parts(start, counted, beyond);
    uninterrupted_run(calls, policy, counted);
    finished_sequence_ignores_answers(start.replay(counted), beyond);
    assert(calls.take(calls.len() as int) =~= calls);
    if policy != FailurePolicy::Continue {
        all_succeeded_leaves_no_failure(calls, counted);
    }
}

/// Where every answer is a success there is no failure.
proof fn all_succeeded_leaves_no_failure(calls: Seq<Action>, answers: Seq<Answer>)
    requires
        forall|i: int| 0 <= i < answers.len() ==> (#[trigger] answers[i]) is Ok,
    ensures
        failures_among(calls, answers).len() == 0,
    decreases answers.len(),
{
    if answers.len() > 0 {
        let earlier = answers.drop_last();
        assert forall|i: int| 0 <= i < earlier.len() implies (#[trigger] earlier[i]) is Ok by {
            assert(earlier[i] == answers[i]);
        }
        all_succeeded_leaves_no_failure(calls, earlier);
        assert(answers[answers.len() - 1] is Ok);
    }
}

/// Under [`FailurePolicy::Abort`] the first failed call is the last call
/// issued: the calls up to it have been issued, none after it is, and the
/// sequence reports that call's failure.
pub proof fn aborted_run(calls: Seq<Action>, answers: Seq<Answer>, failed: int)
    requires
        0 <= failed < calls.len(),
        failed < answers.len(),
        forall|i: int| 0 <= i < failed ==> (#[trigger] answers[i]) is Ok,
        answers[failed] is Err,
    ensures
        ({
            let end = Progress::start(calls, FailurePolicy::Abort).replay(answers);
            &&& end.issued() == calls.take(failed + 1)
            &&& end.pending() is None
            &&& end.result() == Err::<(), SequenceError>(
                failure_of(calls[failed], answers[failed]->Err_0),
            )
            &&& end.logged().len() == 0
        }),
{
    let before = answers.take(failed);
    let upto = answers.take(failed + 1);
    let beyond = answers.skip(failed + 1);
    let start = Progress::start(calls, FailurePolicy::Abort);
    assert forall|i: int| 0 <= i < before.len() implies (#[trigger] before[i]) is Ok by {
        assert(before[i] == answers[i]);
    }
    uninterrupted_run(calls, FailurePolicy::Abort, before);
    all_succeeded_leaves_no_failure(calls, before);
    assert(upto.drop_last() =~= before);
    assert(upto.last() == answers[failed]);
    let stopped = start.replay(upto);
    assert(stopped == start.replay(before).record(answers[failed]));
    assert(stopped.failures =~= seq![failure_of(calls[failed], answers[failed]->Err_0)]);
    assert(answers =~= upto + beyond);
    replay_in_two_parts(start, upto, beyond);
    finished_sequence_ignores_answers(stopped, beyond);
}

/// Members join and nothing ends the sequence: with `members.len()` joined
/// members exactly that many removals, that many restorings and one deletion
/// are issued; each member's removal comes directly before its restoring, and
/// the deletion of the announcing message comes after every member's calls.
pub proof fn new_members_run(
    chat: ChatId,
    members: Seq<MemberId>,
    trigger: MessageId,
    policy: FailurePolicy,
    answers: Seq<Answer>,
)
    requires
        answers.len() >= 2 * members.len() + 1,
        uninterrupted(policy, answers.take(2 * (members.len() as int) + 1)),
    ensures
        ({
            let calls = plan(chat, ChatEventView::NewMembers { members, trigger });
            let end = Progress::start(calls, policy).replay(answers);
            let issued = end.issued();
            &&& issued.len() == 2 * members.len() + 1
            &&& removals(issued) == members.len()
            &&& restorations(issued) == members.len()
            &&& deletions(issued) == 1
            &&& forall|k: int|
                0 <= k < members.len() ==> issued[2 * k] == Action::RemoveMember(
                    chat,
                    #[trigger] members[k],
                ) && issued[2 * k + 1] == Action::RestoreMember(chat, members[k])
            &&& issued[2 * (members.len() as int)] == Action::DeleteMessage(chat, trigger)
            &&& end.pending() is None
            &&& end.result() == Ok::<(), SequenceError>(())
        }),
{
    let calls = plan(chat, ChatEventView::NewMembers { members, trigger });
    new_members_plan(chat, members, trigger);
    complete_run(calls, policy, answers);
}

/// A member leaves: as soon as one answer is in, exactly one call has been
/// issued, the deletion of the announcing message, and no removal or
/// restoring. The sequence reports success, unless the deletion failed under
/// [`FailurePolicy::Abort`], and then it reports that failure.
pub proof fn member_left_run(
    chat: ChatId,
    trigger: MessageId,
    policy: FailurePolicy,
    answers: Seq<Answer>,
)
    requires
        answers.len() >= 1,
    ensures
        ({
            let calls = plan(chat, ChatEventView::MemberLeft { trigger });
            let end = Progress::start(calls, policy).replay(answers);
            &&& end.issued() == seq![Action::DeleteMessage(chat, trigger)]
            &&& removals(end.issued()) == 0
            &&& restorations(end.issued()) == 0
            &&& deletions(end.issued()) == 1
            &&& end.pending() is None
            &&& end.result() == match answers[0] {
                Err(cause) if policy == FailurePolicy::Abort => Err::<(), SequenceError>(
                    SequenceError::DeleteMessageFailed(cause, chat, trigger),
                ),
                _ => Ok::<(), SequenceError>(()),
            }
        }),
{
    let calls = plan(chat, ChatEventView::MemberLeft { trigger });
    member_left_plan(chat, trigger);
    assert(calls.take(1) =~= calls);
    if policy == FailurePolicy::Abort && answers[0] is Err {
        aborted_run(calls, answers, 0);
    } else {
        if policy != FailurePolicy::Continue {
            assert forall|i: int| 0 <= i < answers.take(1).len() implies (
            #[trigger] answers.take(1)[i]) is Ok by {
                assert(answers.take(1)[i] == answers[0]);
            }
        }
        complete_run(calls, policy, answers);
    }
}

/// Any other event: no call is ever issued, whatever answers are offered,
/// and the sequence reports success from the start.
pub proof fn other_event_run(chat: ChatId, policy: FailurePolicy, answers: Seq<Answer>)
    ensures
        ({
            let start = Progress::start(plan(chat, ChatEventView::Other), policy);
            let end = start.replay(answers);
            &&& start.pending() is None
            &&& start.result() == Ok::<(), SequenceError>(())
            &&& end == start
            &&& end.issued().len() == 0
        }),
{
    let start = Progress::start(plan(chat, ChatEventView::Other), policy);
    finished_sequence_ignores_answers(start, answers);
}

/// Under [`FailurePolicy::Abort`], when the restoring of the member at
/// `index` is the first call to fail: that member's removal and restoring
/// are the last calls issued. No call for a later member is issued and the
/// announcing message is not deleted; the sequence reports the failed
/// restoring with that member's identity.
pub proof fn restore_failure_aborts(
    chat: ChatId,
    members: Seq<MemberId>,
    trigger: MessageId,
    index: int,
    answers: Seq<Answer>,
)
    requires
        0 <= index < members.len(),
        answers.len() > 2 * index + 1,
        forall|i: int| 0 <= i < 2 * index + 1 ==> (#[trigger] answers[i]) is Ok,
        answers[2 * index + 1] is Err,
    ensures
        ({
            let calls = plan(chat, ChatEventView::NewMembers { members, trigger });
            let end = Progress::start(calls, FailurePolicy::Abort).replay(answers);
            &&& end.issued() == member_calls(chat, members.take(index + 1))
            &&& removals(end.issued()) == index + 1
            &&& restorations(end.issued()) == index + 1
            &&& deletions(end.issued()) == 0
            &&& end.pending() is None
            &&& end.result() == Err::<(), SequenceError>(
                SequenceError::RestoreFailed(answers[2 * index + 1]->Err_0, chat, members[index]),
            )
        }),
{
    let calls = plan(chat, ChatEventView::NewMembers { members, trigger });
    let failed = 2 * index + 1;
    assert(calls[failed] == Action::RestoreMember(chat, members[index])) by {
        new_members_plan(chat, members, trigger);
    }
    assert(failed < calls.len()) by {
        new_members_plan(chat, members, trigger);
    }
    aborted_run(calls, answers, failed);
    new_members_plan_prefix(chat, members, trigger, index + 1);
    member_calls_counts(chat, members.take(index + 1));
}

/// Under [`FailurePolicy::Continue`] a failed call holds nothing up: every
/// call of the plan is still issued, the deletion of the announcing message
/// included, the sequence reports success, and each failure is left for the
/// log.
pub proof fn continued_run(calls: Seq<Action>, answers: Seq<Answer>)
    requires
        answers.len() == calls.len(),
    ensures
        ({
            let end = Progress::start(calls, FailurePolicy::Continue).replay(answers);
            &&& end.issued() == calls
            &&& end.pending() is None
            &&& end.result() == Ok::<(), SequenceError>(())
            &&& end.logged() == failures_among(calls, answers)
            &&& forall|i: int|
                0 <= i < answers.len() && (#[trigger] answers[i]) is Err ==> end.logged().contains(
                    failure_of(calls[i], answers[i]->Err_0),
                )
        }),
{
    assert(answers.take(calls.len() as int) =~= answers);
    complete_run(calls, FailurePolicy::Continue, answers);
    assert forall|i: int| 0 <= i < answers.len() && (#[trigger] answers[i]) is Err implies
        failures_among(calls, answers).contains(failure_of(calls[i], answers[i]->Err_0)) by {
        failure_is_kept(calls, answers, i);
    }
}

/// A failed call's failure is among the failures.
proof fn failure_is_kept(calls: Seq<Action>, answers: Seq<Answer>, at: int)
    requires
        0 <= at < answers.len(),
        answers[at] is Err,
    ensures
        failures_among(calls, answers).contains(failure_of(calls[at], answers[at]->Err_0)),
    decreases answers.len(),
{
    let earlier = answers.drop_last();
    let kept = failures_among(calls, earlier);
    if at == answers.len() - 1 {
        let all = failures_among(calls, answers);
        assert(all[all.len() - 1] == failure_of(calls[at], answers[at]->Err_0));
    } else {
        failure_is_kept(calls, earlier, at);
        let wanted = failure_of(calls[at], answers[at]->Err_0);
        let i = choose|i: int| 0 <= i < kept.len() && kept[i] == wanted;
        assert(failures_among(calls, answers)[i] == wanted);
    }
}

} // verus!
