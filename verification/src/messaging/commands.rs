//! Commands: user-initiated intentions that may succeed or fail.

use crate::domain::entities::UserId;
use vstd::prelude::*;

verus! {

/// Send a message to another user.
#[derive(Debug)]
pub struct SendMessageCommand {
    /// The sender.
    pub sender_id: UserId,
    /// The recipient.
    pub recipient_id: UserId,
    /// The plaintext content.
    pub content: String,
}

impl Clone for SendMessageCommand {
    fn clone(&self) -> (r: Self)
        ensures
            r == *self,
    {
        SendMessageCommand {
            sender_id: self.sender_id,
            recipient_id: self.recipient_id,
            content: self.content.clone(),
        }
    }
}

/// Start a conversation with a user.
#[derive(Debug, Clone)]
pub struct StartConversationCommand {
    /// The user who starts it.
    pub initiator_id: UserId,
    /// The user invited.
    pub invitee_id: UserId,
}

/// Delete a message locally.
#[derive(Debug, Clone)]
pub struct DeleteMessageCommand {
    /// The user asking for deletion.
    pub requester_id: UserId,
    /// The message to delete.
    pub message_id: String,
}

} // verus!
