//! Events of the pipeline.

use crate::domain::entities::UserId;
use crate::pipeline::value_objects::{MessageId, Timestamp};
use vstd::prelude::*;

verus! {

/// A fact about a message.
#[derive(Debug, Clone)]
pub enum DomainEvent {
    /// A message was sent.
    MessageSent {
        /// The message.
        message_id: MessageId,
        /// Its sender.
        from: UserId,
        /// Its recipient.
        to: UserId,
        /// When it was sent.
        timestamp: Timestamp,
    },
    /// A message was delivered.
    MessageDelivered {
        /// The message.
        message_id: MessageId,
        /// Its recipient.
        to: UserId,
        /// When it was delivered.
        timestamp: Timestamp,
    },
}

} // verus!
