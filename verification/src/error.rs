//! Failures of moderation calls.

use vstd::prelude::*;
use vstd::string::StringExecFns;
use crate::decimal::{decimal, decimal_text};
use crate::ids::{ChatId, MemberId, MessageId};
use crate::plan::Action;

verus! {

/// `carapax::ExecuteError`, the bot client's error for a call that did not
/// go through. The policy carries it along and never looks inside: nothing
/// is claimed of what a value of it holds.
#[verifier::external_type_specification]
#[verifier::external_body]
pub struct ExExecuteError(carapax::ExecuteError);

/// A moderation call that failed: the client's error, the chat, and the
/// member or message that the call was about.
#[derive(Debug)]
pub enum SequenceError {
    /// Removing the member failed.
    RemoveFailed(carapax::ExecuteError, ChatId, MemberId),
    /// Restoring the member failed.
    RestoreFailed(carapax::ExecuteError, ChatId, MemberId),
    /// Deleting the message failed.
    DeleteMessageFailed(carapax::ExecuteError, ChatId, MessageId),
}

/// The failure that `action` turns into when the client answers it with
/// `cause`.
pub open spec fn failure_of(action: Action, cause: carapax::ExecuteError) -> SequenceError {
    match action {
        Action::RemoveMember(chat, member) => SequenceError::RemoveFailed(cause, chat, member),
        Action::RestoreMember(chat, member) => SequenceError::RestoreFailed(cause, chat, member),
        Action::DeleteMessage(chat, message) => SequenceError::DeleteMessageFailed(
            cause,
            chat,
            message,
        ),
    }
}

/// The result of one call in the policy's own terms: success, or the failure
/// with the chat and the member or message it was about.
pub type ActionOutcome = Result<(), SequenceError>;

/// The outcome of `action`, given the client's answer to it.
pub open spec fn outcome_of(
    action: Action,
    answer: Result<(), carapax::ExecuteError>,
) -> ActionOutcome {
    match answer {
        Ok(_) => Ok(()),
        Err(cause) => Err(failure_of(action, cause)),
    }
}

impl Action {
    /// Turns the client's answer to this call into the call's outcome.
    pub fn outcome(self, answer: Result<(), carapax::ExecuteError>) -> (outcome: ActionOutcome)
        ensures
            outcome == outcome_of(self, answer),
    {
        match answer {
            Ok(_) => Ok(()),
            Err(cause) => Err(self.failure(cause)),
        }
    }

    /// The failure of this call, given the client's error for it.
    pub fn failure(self, cause: carapax::ExecuteError) -> (error: SequenceError)
        ensures
            error == failure_of(self, cause),
    {
        match self {
            Action::RemoveMember(chat, member) => SequenceError::RemoveFailed(cause, chat, member),
            Action::RestoreMember(chat, member) => SequenceError::RestoreFailed(
                cause,
                chat,
                member,
            ),
            Action::DeleteMessage(chat, message) => SequenceError::DeleteMessageFailed(
                cause,
                chat,
                message,
            ),
        }
    }
}

/// The client's error behind `error`.
pub open spec fn cause_of(error: SequenceError) -> carapax::ExecuteError {
    match error {
        SequenceError::RemoveFailed(cause, _, _) => cause,
        SequenceError::RestoreFailed(cause, _, _) => cause,
        SequenceError::DeleteMessageFailed(cause, _, _) => cause,
    }
}

/// The chat in which the call behind `error` failed.
pub open spec fn chat_of(error: SequenceError) -> ChatId {
    match error {
        SequenceError::RemoveFailed(_, chat, _) => chat,
        SequenceError::RestoreFailed(_, chat, _) => chat,
        SequenceError::DeleteMessageFailed(_, chat, _) => chat,
    }
}

/// The one-line message for `error`, given the text of its cause: the call
/// that failed, the cause, and in brackets the chat and the member or
/// message, each in decimal.
pub open spec fn message(error: SequenceError, cause: Seq<char>) -> Seq<char> {
    match error {
        SequenceError::RemoveFailed(_, chat, member) => "failed to ban chat member: "@ + cause
            + " (chat_id="@ + decimal(chat.0 as int) + ", user_id="@ + decimal(member.0 as int)
            + ")"@,
        SequenceError::RestoreFailed(_, chat, member) => "failed to unban chat member: "@ + cause
            + " (chat_id="@ + decimal(chat.0 as int) + ", user_id="@ + decimal(member.0 as int)
            + ")"@,
        SequenceError::DeleteMessageFailed(_, chat, message) => "failed to delete message: "@
            + cause + " (chat_id="@ + decimal(chat.0 as int) + ", message_id="@ + decimal(
            message.0 as int,
        ) + ")"@,
    }
}

/// Whether `text` reads as the client shows a failed call: a fixed opening,
/// then the detail.
pub open spec fn shown_by_client(text: Seq<char>) -> bool {
    exists|detail: Seq<char>| text == "failed to execute method: "@ + detail
}

/// The client's own text for `cause`, by `Display` of
/// `carapax::ExecuteError`. That text opens with `failed to execute method: `
/// whatever the cause; what follows comes from the layer that failed, and
/// nothing is claimed of it.
#[verifier::external_body]
fn cause_text(cause: &carapax::ExecuteError) -> (text: String)
    ensures
        shown_by_client(text@),
{
    cause.to_string()
}

impl SequenceError {
    /// The client's error behind this failure.
    pub fn cause(&self) -> (cause: &carapax::ExecuteError)
        ensures
            *cause == cause_of(*self),
    {
        match self {
            SequenceError::RemoveFailed(cause, _, _) => cause,
            SequenceError::RestoreFailed(cause, _, _) => cause,
            SequenceError::DeleteMessageFailed(cause, _, _) => cause,
        }
    }

    /// The chat in which the call failed.
    pub fn chat_id(&self) -> (chat: ChatId)
        ensures
            chat == chat_of(*self),
    {
        match self {
            SequenceError::RemoveFailed(_, chat, _) => *chat,
            SequenceError::RestoreFailed(_, chat, _) => *chat,
            SequenceError::DeleteMessageFailed(_, chat, _) => *chat,
        }
    }

    /// The message for this failure, with `cause` as the text of its cause.
    pub fn render_with(&self, cause: &str) -> (text: String)
        ensures
            text@ == message(*self, cause@),
    {
        let (opening, chat, label, subject) = match self {
            SequenceError::RemoveFailed(_, chat, member) => (
                "failed to ban chat member: ",
                chat.0,
                ", user_id=",
                member.0,
            ),
            SequenceError::RestoreFailed(_, chat, member) => (
                "failed to unban chat member: ",
                chat.0,
                ", user_id=",
                member.0,
            ),
            SequenceError::DeleteMessageFailed(_, chat, message) => (
                "failed to delete message: ",
                chat.0,
                ", message_id=",
                message.0,
            ),
        };
        let mut text = String::from_str(opening);
        text.append(cause);
        text.append(" (chat_id=");
        text.append(decimal_text(chat).as_str());
        text.append(label);
        text.append(decimal_text(subject).as_str());
        text.append(")");
        text
    }

    /// The message for this failure, with the cause in the client's own
    /// words.
    pub fn render(&self) -> (text: String)
        ensures
            exists|cause: Seq<char>| shown_by_client(cause) && text@ == message(*self, cause),
    {
        let cause = cause_text(self.cause());
        self.render_with(cause.as_str())
    }
}

} // verus!
