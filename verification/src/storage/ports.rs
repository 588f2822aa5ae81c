//! Storage operations beyond the core storage port.

use crate::domain::entities::UserId;
use crate::domain::errors::DomainError;
use crate::storage::schema::{Contact, Conversation};
use vstd::prelude::*;

verus! {

/// Storage of conversations and contacts.
pub trait ExtendedStoragePort {
    /// Returns the conversation between two users, creating it when absent.
    fn get_or_create_conversation(&mut self, user_a: &UserId, user_b: &UserId) -> Result<
        Conversation,
        DomainError,
    >;

    /// All conversations, the most recently active first.
    fn list_conversations(&self) -> Result<Vec<Conversation>, DomainError>;

    /// Saves or replaces a contact.
    fn save_contact(&mut self, contact: &Contact) -> Result<(), DomainError>;

    /// The contact with the user identifier, if any.
    fn get_contact(&self, user_id: &UserId) -> Result<Option<Contact>, DomainError>;

    /// Deletes a conversation and all data tied to it.
    fn delete_conversation(&mut self, conversation_id: &str) -> Result<(), DomainError>;
}

} // verus!
