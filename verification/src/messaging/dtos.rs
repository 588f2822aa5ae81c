//! Data carried to the interfaces of the application.

use crate::domain::entities::{SessionId, UserId};
use vstd::prelude::*;

verus! {

/// The answer to a message that was sent.
#[derive(Debug)]
pub struct MessageSentResponse {
    /// Identifier of the sent message.
    pub message_id: String,
    /// Session under which it was sent.
    pub session_id: SessionId,
    /// When it was sent (Unix epoch milliseconds).
    pub timestamp_ms: u64,
    /// Whether it was delivered at once.
    pub delivered_immediately: bool,
}

/// Summary of a conversation for list views.
#[derive(Debug, Clone)]
pub struct ConversationSummary {
    /// The other participant.
    pub peer_id: UserId,
    /// The last message, possibly truncated.
    pub last_message: String,
    /// Time of the last activity.
    pub last_activity_ms: u64,
    /// Number of unread messages.
    pub unread_count: u64,
}

} // verus!
