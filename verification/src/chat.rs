//! Identifiers that the messaging transport hands out.

use vstd::prelude::*;

verus! {

/// Identifier of a chat.
#[derive(Debug, Clone, Copy, PartialEq, Eq, Hash, Structural)]
pub struct ChatId(pub i64);

/// Identifier of a message within a chat.
#[derive(Debug, Clone, Copy, PartialEq, Eq, Hash, Structural)]
pub struct MessageId(pub i32);

} // verus!
