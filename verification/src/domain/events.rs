//! Domain events: facts about sessions and messages.

use crate::domain::entities::{Message, SessionId, UserId};
use vstd::prelude::*;

verus! {

/// A state transition of the domain.
#[derive(Debug)]
pub enum DomainEvent {
    /// A session was established between two users.
    SessionEstablished {
        /// User who initiated the session.
        initiator: UserId,
        /// User who accepted the session.
        responder: UserId,
        /// The new session.
        session_id: SessionId,
    },
    /// A message was encrypted and queued for delivery.
    MessageQueued {
        /// The queued message.
        message: Message,
    },
    /// A message reached the recipient's device.
    MessageDelivered {
        /// Identifier of the message.
        message_id: String,
        /// The recipient.
        recipient: UserId,
    },
    /// A message was read by its recipient.
    MessageRead {
        /// Identifier of the message.
        message_id: String,
        /// The reader.
        reader: UserId,
    },
    /// A session was closed or expired.
    SessionClosed {
        /// The closed session.
        session_id: SessionId,
        /// Why it was closed.
        reason: String,
    },
}

impl Clone for DomainEvent {
    fn clone(&self) -> (r: Self)
        ensures
            r == *self,
    {
        match self {
            DomainEvent::SessionEstablished { initiator, responder, session_id } =>
                DomainEvent::SessionEstablished {
                initiator: *initiator,
                responder: *responder,
                session_id: session_id.clone(),
            },
            DomainEvent::MessageQueued { message } => DomainEvent::MessageQueued {
                message: message.clone(),
            },
            DomainEvent::MessageDelivered { message_id, recipient } =>
                DomainEvent::MessageDelivered {
                message_id: message_id.clone(),
                recipient: *recipient,
            },
            DomainEvent::MessageRead { message_id, reader } => DomainEvent::MessageRead {
                message_id: message_id.clone(),
                reader: *reader,
            },
            DomainEvent::SessionClosed { session_id, reason } => DomainEvent::SessionClosed {
                session_id: session_id.clone(),
                reason: reason.clone(),
            },
        }
    }
}

/// The label of each kind of event.
pub open spec fn event_label(e: DomainEvent) -> Seq<char> {
    match e {
        DomainEvent::SessionEstablished { .. } => "session_established"@,
        DomainEvent::MessageQueued { .. } => "message_queued"@,
        DomainEvent::MessageDelivered { .. } => "message_delivered"@,
        DomainEvent::MessageRead { .. } => "message_read"@,
        DomainEvent::SessionClosed { .. } => "session_closed"@,
    }
}

impl DomainEvent {
    /// A human-readable label for the kind of this event.
    pub fn event_type(&self) -> (r: &'static str)
        ensures
            r@ == event_label(*self),
    {
        match self {
            DomainEvent::SessionEstablished { .. } => "session_established",
            DomainEvent::MessageQueued { .. } => "message_queued",
            DomainEvent::MessageDelivered { .. } => "message_delivered",
            DomainEvent::MessageRead { .. } => "message_read",
            DomainEvent::SessionClosed { .. } => "session_closed",
        }
    }
}

} // verus!
