//! Entities of the pipeline.

use crate::domain::entities::UserId;
use crate::pipeline::value_objects::{MessageId, Timestamp};
use vstd::prelude::*;

verus! {

/// Delivery status of a message.
#[derive(Debug, Clone, Copy, PartialEq, Eq, Structural)]
pub enum MessageStatus {
    /// Not yet sent.
    Pending,
    /// Sent.
    Sent,
    /// Delivered to the recipient.
    Delivered,
    /// Read by the recipient.
    Read,
}

/// An encrypted message and its status.
#[derive(Debug, Clone)]
pub struct Message {
    /// Identifier.
    pub id: MessageId,
    /// Sender.
    pub sender: UserId,
    /// Recipient.
    pub recipient: UserId,
    /// Encrypted content.
    pub ciphertext: Vec<u8>,
    /// When it was created.
    pub timestamp: Timestamp,
    /// Delivery status.
    pub status: MessageStatus,
}

} // verus!
