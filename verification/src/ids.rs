//! Identifiers that the platform assigns. The policy never looks inside one:
//! it hands each on, unchanged, to the call that needs it.

use vstd::prelude::*;

verus! {

/// Identifier of a chat.
#[derive(Clone, Copy, Debug, PartialEq, Eq, Hash, Structural)]
pub struct ChatId(pub i64);

/// Identifier of a platform user.
#[derive(Clone, Copy, Debug, PartialEq, Eq, Hash, Structural)]
pub struct MemberId(pub i64);

/// Identifier of a message within its chat.
#[derive(Clone, Copy, Debug, PartialEq, Eq, Hash, Structural)]
pub struct MessageId(pub i64);

} // verus!
