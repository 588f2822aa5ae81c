//! Persisted records: conversations and contacts.

use crate::domain::entities::{SessionId, UserId};
use vstd::prelude::*;

verus! {

/// A conversation between two users.
#[derive(Debug)]
pub struct Conversation {
    /// Unique conversation identifier.
    pub id: String,
    /// The two participants.
    pub participants: (UserId, UserId),
    /// The session of the conversation.
    pub session_id: SessionId,
    /// Timestamp of the last message.
    pub last_activity_ms: u64,
    /// Number of messages.
    pub message_count: u64,
}

impl Clone for Conversation {
    fn clone(&self) -> (r: Self)
        ensures
            r == *self,
    {
        Conversation {
            id: self.id.clone(),
            participants: self.participants,
            session_id: self.session_id.clone(),
            last_activity_ms: self.last_activity_ms,
            message_count: self.message_count,
        }
    }
}

/// A contact: the profile of another user.
#[derive(Debug)]
pub struct Contact {
    /// The contact's user identifier.
    pub user_id: UserId,
    /// The name chosen for the contact.
    pub display_name: String,
    /// A Base64-encoded avatar, if any.
    pub avatar: Option<String>,
    /// Whether the contact's identity is confirmed.
    pub verified: bool,
    /// When the contact was added.
    pub added_at_ms: u64,
}

impl Clone for Contact {
    fn clone(&self) -> (r: Self)
        ensures
            r == *self,
    {
        let avatar = match &self.avatar {
            Some(a) => Some(a.clone()),
            None => None,
        };
        Contact {
            user_id: self.user_id,
            display_name: self.display_name.clone(),
            avatar,
            verified: self.verified,
            added_at_ms: self.added_at_ms,
        }
    }
}

} // verus!
