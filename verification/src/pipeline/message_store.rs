//! Message storage port of the pipeline.

use crate::domain::entities::UserId;
use crate::pipeline::value_objects::{MessageId, Timestamp};
use crate::text::concat;
use vstd::prelude::*;
use vstd::string::StringExecFns;

verus! {

/// A stored encrypted message with its delivery flags.
#[derive(Debug, Clone)]
pub struct StoredMessage {
    /// Identifier.
    pub id: MessageId,
    /// Sender.
    pub sender: UserId,
    /// Recipient.
    pub recipient: UserId,
    /// Encrypted content.
    pub ciphertext: Vec<u8>,
    /// When it was created.
    pub timestamp: Timestamp,
    /// Whether it was delivered.
    pub delivered: bool,
    /// Whether it was read.
    pub read: bool,
}

/// Failures of storage.
#[derive(Debug)]
pub enum StorageError {
    /// Saving failed.
    SaveFailed(String),
    /// Reading failed.
    ReadFailed(String),
    /// Updating failed.
    UpdateFailed(String),
    /// Nothing was found.
    NotFound(String),
}

impl StorageError {
    /// The displayed text of an error.
    pub open spec fn text(&self) -> Seq<char> {
        match self {
            StorageError::SaveFailed(m) => "Save failed: "@ + m@,
            StorageError::ReadFailed(m) => "Read failed: "@ + m@,
            StorageError::UpdateFailed(m) => "Update failed: "@ + m@,
            StorageError::NotFound(m) => "Not found: "@ + m@,
        }
    }

    /// The displayed text of this error.
    pub fn to_string(&self) -> (r: String)
        ensures
            r@ == self.text(),
    {
        match self {
            StorageError::SaveFailed(m) => concat("Save failed: ", m.as_str()),
            StorageError::ReadFailed(m) => concat("Read failed: ", m.as_str()),
            StorageError::UpdateFailed(m) => concat("Update failed: ", m.as_str()),
            StorageError::NotFound(m) => concat("Not found: ", m.as_str()),
        }
    }
}

/// Persistence of messages and their delivery status.
pub trait MessageStoragePort {
    /// Saves a message being sent.
    fn save_outgoing_message(&mut self, msg: StoredMessage) -> Result<(), StorageError>;

    /// Saves a message received.
    fn save_incoming_message(&mut self, msg: StoredMessage) -> Result<(), StorageError>;

    /// Marks a message delivered.
    fn mark_delivered(&mut self, msg_id: &MessageId) -> Result<(), StorageError>;

    /// Marks a message read.
    fn mark_read(&mut self, msg_id: &MessageId) -> Result<(), StorageError>;

    /// At most `limit` messages of a user.
    fn get_messages_for_user(&mut self, user_id: &UserId, limit: u32) -> Result<
        Vec<StoredMessage>,
        StorageError,
    >;
}

/// The redb adapter; its operations are not implemented yet.
pub struct RedbStorageAdapter;

impl RedbStorageAdapter {
    /// Creates the adapter.
    pub fn new() -> (r: Self) {
        RedbStorageAdapter
    }
}

impl Default for RedbStorageAdapter {
    fn default() -> (r: Self) {
        RedbStorageAdapter
    }
}


/// The placeholder answers every request with the failure of that request,
/// saying it is not implemented.
impl MessageStoragePort for RedbStorageAdapter {
    fn save_outgoing_message(&mut self, msg: StoredMessage) -> (r: Result<(), StorageError>)
        ensures
            r matches Err(StorageError::SaveFailed(t)) && t@ == "not implemented"@,
    {
        Err(StorageError::SaveFailed(String::from_str("not implemented")))
    }

    fn save_incoming_message(&mut self, msg: StoredMessage) -> (r: Result<(), StorageError>)
        ensures
            r matches Err(StorageError::SaveFailed(t)) && t@ == "not implemented"@,
    {
        Err(StorageError::SaveFailed(String::from_str("not implemented")))
    }

    fn mark_delivered(&mut self, msg_id: &MessageId) -> (r: Result<(), StorageError>)
        ensures
            r matches Err(StorageError::UpdateFailed(t)) && t@ == "not implemented"@,
    {
        Err(StorageError::UpdateFailed(String::from_str("not implemented")))
    }

    fn mark_read(&mut self, msg_id: &MessageId) -> (r: Result<(), StorageError>)
        ensures
            r matches Err(StorageError::UpdateFailed(t)) && t@ == "not implemented"@,
    {
        Err(StorageError::UpdateFailed(String::from_str("not implemented")))
    }

    fn get_messages_for_user(&mut self, user_id: &UserId, limit: u32) -> (r: Result<Vec<StoredMessage>, StorageError>)
        ensures
            r matches Err(StorageError::ReadFailed(t)) && t@ == "not implemented"@,
    {
        Err(StorageError::ReadFailed(String::from_str("not implemented")))
    }
}

} // verus!
