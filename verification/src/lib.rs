//! Moderation policy for a group chat: every member who joins is removed and
//! then unrestricted again, and the system messages that announce joins and
//! departures are deleted.
//!
//! The crate decides; it performs no call itself. An inbound update is
//! classified into a [`ChatEvent`], and a [`Sequencer`] then hands out the
//! moderation calls one at a time and takes each call's answer back.

pub mod decimal;
pub mod error;
pub mod event;
pub mod ids;
pub mod plan;
pub mod runs;
pub mod sequencer;
pub mod update;

pub use crate::error::{ActionOutcome, SequenceError};
pub use crate::event::{classify, get_new_chat_members, ChatEvent};
pub use crate::ids::{ChatId, MemberId, MessageId};
pub use crate::plan::Action;
pub use crate::sequencer::{FailurePolicy, Report, Sequencer};
pub use crate::update::{Payload, Update, User};
