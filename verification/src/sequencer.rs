//! The moderation sequencer: which call comes next, and what a call's answer
//! does to the rest of the sequence.
//!
//! The sequencer performs no call. Its driver asks for the pending call,
//! performs it, and hands the answer back, until nothing is pending:
//!
//! ```text
//! let mut sequencer = Sequencer::new(chat, event, policy);
//! while let Some(action) = sequencer.pending() {
//!     sequencer.record(perform(action));
//! }
//! let report = sequencer.finish();
//! ```

use vstd::prelude::*;
use crate::error::{failure_of, SequenceError};
use crate::event::{classify, classified, ChatEvent, ChatEventView};
use crate::ids::ChatId;
use crate::plan::{plan, Action};
use crate::update::Update;

verus! {

/// What a failed call does to the rest of the sequence.
#[derive(Clone, Copy, Debug, PartialEq, Eq, Structural)]
pub enum FailurePolicy {
    /// The first failed call ends the sequence, and its failure is the
    /// sequence's result.
    Abort,
    /// A failed call is noted and the sequence goes on; the sequence itself
    /// succeeds, and the failures are left for the log.
    Continue,
}

/// Mathematical state of one sequence.
pub struct Progress {
    /// Every call the event asks for, in the order of issue.
    pub plan: Seq<Action>,
    pub policy: FailurePolicy,
    /// How many calls have been issued and answered.
    pub answered: nat,
    /// The failures of the answered calls, oldest first.
    pub failures: Seq<SequenceError>,
    /// Whether a failure has ended the sequence early.
    pub halted: bool,
}

impl Progress {
    /// The state before the first call.
    pub open spec fn start(plan: Seq<Action>, policy: FailurePolicy) -> Progress {
        Progress { plan, policy, answered: 0, failures: Seq::empty(), halted: false }
    }

    /// The call to perform next; `None` once the sequence is over.
    pub open spec fn pending(self) -> Option<Action> {
        if self.halted || self.answered >= self.plan.len() {
            None
        } else {
            Some(self.plan[self.answered as int])
        }
    }

    /// The calls issued so far, in the order of issue.
    pub open spec fn issued(self) -> Seq<Action> {
        self.plan.take(self.answered as int)
    }

    /// The state after the pending call was answered with `answer`. With
    /// nothing pending the answer belongs to no call, and nothing changes.
    pub open spec fn record(self, answer: Result<(), carapax::ExecuteError>) -> Progress {
        match (self.pending(), answer) {
            (None, _) => self,
            (Some(_), Ok(_)) => Progress { answered: self.answered + 1, ..self },
            (Some(action), Err(cause)) => Progress {
                answered: self.answered + 1,
                failures: self.failures.push(failure_of(action, cause)),
                halted: self.policy == FailurePolicy::Abort,
                ..self
            },
        }
    }

    /// The state after `answers` were recorded one after the other.
    pub open spec fn replay(self, answers: Seq<Result<(), carapax::ExecuteError>>) -> Progress
        decreases answers.len(),
    {
        if answers.len() == 0 {
            self
        } else {
            self.replay(answers.drop_last()).record(answers.last())
        }
    }

    /// What the sequence reports to its caller: under
    /// [`FailurePolicy::Abort`] the first failure, if there was one; success
    /// otherwise.
    pub open spec fn result(self) -> Result<(), SequenceError> {
        if self.policy == FailurePolicy::Abort && self.failures.len() > 0 {
            Err(self.failures[0])
        } else {
            Ok(())
        }
    }

    /// The failures that are left for the log: under
    /// [`FailurePolicy::Continue`] all of them, under
    /// [`FailurePolicy::Abort`] none, since the one failure is the result.
    pub open spec fn logged(self) -> Seq<SequenceError> {
        if self.policy == FailurePolicy::Continue {
            self.failures
        } else {
            Seq::empty()
        }
    }
}

/// Where a sequence stands within its event.
#[derive(Clone, Copy, Debug, PartialEq, Eq, Structural)]
enum Stage {
    /// The member at this index is to be removed.
    Remove(usize),
    /// The member at this index was removed and is to be restored.
    Restore(usize),
    /// The announcing message is to be deleted.
    Delete,
    /// Every call has been answered.
    End,
}

/// An event's calls, and how far through them the sequence is.
struct Cursor {
    chat: ChatId,
    event: ChatEvent,
    stage: Stage,
}

impl Cursor {
    #[verifier::type_invariant]
    spec fn stage_fits_event(self) -> bool {
        match (self.event@, self.stage) {
            (ChatEventView::NewMembers { members, .. }, Stage::Remove(i)) => i < members.len(),
            (ChatEventView::NewMembers { members, .. }, Stage::Restore(i)) => i < members.len(),
            (ChatEventView::NewMembers { .. }, _) => true,
            (ChatEventView::MemberLeft { .. }, Stage::Delete) => true,
            (_, Stage::End) => true,
            _ => false,
        }
    }

    /// Every call of the event.
    spec fn calls(self) -> Seq<Action> {
        plan(self.chat, self.event@)
    }

    /// How many calls lie before the stage.
    spec fn position(self) -> nat {
        match self.stage {
            Stage::Remove(i) => 2 * (i as nat),
            Stage::Restore(i) => 2 * (i as nat) + 1,
            Stage::Delete => (self.calls().len() - 1) as nat,
            Stage::End => self.calls().len(),
        }
    }

    /// The call at the stage, if the stage is not the end.
    spec fn current(self) -> Option<Action> {
        if self.position() < self.calls().len() {
            Some(self.calls()[self.position() as int])
        } else {
            None
        }
    }

    fn new(chat: ChatId, event: ChatEvent) -> (cursor: Cursor)
        ensures
            cursor.calls() == plan(chat, event@),
            cursor.position() == 0,
    {
        let stage = match &event {
            ChatEvent::NewMembers { members, .. } => if members.len() > 0 {
                Stage::Remove(0)
            } else {
                Stage::Delete
            },
            ChatEvent::MemberLeft { .. } => Stage::Delete,
            ChatEvent::Other => Stage::End,
        };
        Cursor { chat, event, stage }
    }

    fn peek(&self) -> (action: Option<Action>)
        ensures
            action == self.current(),
            self.position() <= self.calls().len(),
    {
        proof {
            use_type_invariant(self);
        }
        match (&self.event, self.stage) {
            (ChatEvent::NewMembers { members, .. }, Stage::Remove(i)) => Some(
                Action::RemoveMember(self.chat, members[i]),
            ),
            (ChatEvent::NewMembers { members, .. }, Stage::Restore(i)) => Some(
                Action::RestoreMember(self.chat, members[i]),
            ),
            (ChatEvent::NewMembers { trigger, .. }, Stage::Delete) => Some(
                Action::DeleteMessage(self.chat, *trigger),
            ),
            (ChatEvent::MemberLeft { trigger }, Stage::Delete) => Some(
                Action::DeleteMessage(self.chat, *trigger),
            ),
            _ => None,
        }
    }

    /// Moves to the stage after the current call. At the end it stays there.
    fn advance(&mut self)
        ensures
            final(self).calls() == old(self).calls(),
            old(self).current() is Some ==> final(self).position() == old(self).position() + 1,
            old(self).current() is None ==> final(self).position() == old(self).position(),
    {
        proof {
            use_type_invariant(&*self);
        }
        let next = match (&self.event, self.stage) {
            (_, Stage::Remove(i)) => Stage::Restore(i),
            (ChatEvent::NewMembers { members, .. }, Stage::Restore(i)) => {
                let count: usize = members.len();
                if i + 1 < count {
                    Stage::Remove(i + 1)
                } else {
                    Stage::Delete
                }
            },
            _ => Stage::End,
        };
        self.stage = next;
    }
}

/// The moderation sequencer for one event in one chat.
pub struct Sequencer {
    cursor: Cursor,
    policy: FailurePolicy,
    halted: bool,
    failures: Vec<SequenceError>,
}

/// What a finished sequence hands to its caller.
#[derive(Debug)]
pub struct Report {
    /// The result for the dispatcher.
    pub result: Result<(), SequenceError>,
    /// The failures that the sequence went on after, oldest first.
    pub logged: Vec<SequenceError>,
}

impl View for Sequencer {
    type V = Progress;

    closed spec fn view(&self) -> Progress {
        Progress {
            plan: self.cursor.calls(),
            policy: self.policy,
            answered: self.cursor.position(),
            failures: self.failures@,
            halted: self.halted,
        }
    }
}

impl Sequencer {
    /// Starts the sequence for `event` in `chat`.
    pub fn new(chat: ChatId, event: ChatEvent, policy: FailurePolicy) -> (sequencer: Sequencer)
        ensures
            sequencer@ == Progress::start(plan(chat, event@), policy),
    {
        Sequencer { cursor: Cursor::new(chat, event), policy, halted: false, failures: Vec::new() }
    }

    /// Starts the sequence for the event that `update` stands for, in the
    /// chat the update occurred in.
    pub fn for_update(update: &Update, policy: FailurePolicy) -> (sequencer: Sequencer)
        ensures
            sequencer@ == Progress::start(plan(update@.chat_id, classified(update@)), policy),
    {
        Sequencer::new(update.chat_id, classify(update), policy)
    }

    /// The call to perform next; `None` once the sequence is over.
    pub fn pending(&self) -> (action: Option<Action>)
        ensures
            action == self@.pending(),
    {
        if self.halted {
            None
        } else {
            self.cursor.peek()
        }
    }

    /// Takes the answer to the pending call. A failure is kept, and under
    /// [`FailurePolicy::Abort`] it ends the sequence. With nothing pending
    /// the answer is dropped.
    pub fn record(&mut self, answer: Result<(), carapax::ExecuteError>)
        ensures
            final(self)@ == old(self)@.record(answer),
    {
        let action = match self.pending() {
            Some(action) => action,
            None => {
                return ;
            },
        };
        self.cursor.advance();
        match action.outcome(answer) {
            Ok(_) => {},
            Err(failure) => {
                match self.policy {
                    FailurePolicy::Abort => {
                        self.halted = true;
                    },
                    FailurePolicy::Continue => {},
                }
                self.failures.push(failure);
            },
        }
    }

    /// Ends the sequence and reports what it came to.
    pub fn finish(self) -> (report: Report)
        ensures
            report.result == self@.result(),
            report.logged@ == self@.logged(),
    {
        let mut failures = self.failures;
        match self.policy {
            FailurePolicy::Continue => Report { result: Ok(()), logged: failures },
            FailurePolicy::Abort => {
                if failures.len() > 0 {
                    let first = failures.remove(0);
                    Report { result: Err(first), logged: Vec::new() }
                } else {
                    Report { result: Ok(()), logged: failures }
                }
            },
        }
    }
}

} // verus!
