//! Application ports: the boundaries between the application core and the
//! adapters that implement encryption, transport, storage and moderation.
//!
//! The ports are for other code to implement, so their methods promise
//! nothing by themselves; each adapter of this library states its own
//! behaviour on its implementation.

use crate::domain::entities::{Message, SessionId, UserId};
use crate::domain::errors::DomainError;
use crate::domain::events::DomainEvent;
use crate::domain::value_objects::ModerationResult;
use vstd::prelude::*;

verus! {

/// Public key material with which another user establishes a session.
#[derive(Debug, Clone)]
pub struct PreKeyBundle {
    /// The identity public key of the owner.
    pub identity_key: Vec<u8>,
    /// The signed pre-key.
    pub signed_pre_key: Vec<u8>,
    /// Signature of the signed pre-key by the identity key.
    pub signed_pre_key_signature: Vec<u8>,
    /// A one-time pre-key, absent when they are exhausted.
    pub one_time_pre_key: Option<Vec<u8>>,
}

/// Port for end-to-end encryption.
pub trait CryptoPort {
    /// Creates a pre-key bundle for the current user.
    fn create_pre_key_bundle(&mut self) -> Result<PreKeyBundle, DomainError>;

    /// Establishes an encrypted session with a remote user.
    fn establish_session(&mut self, remote_user: &UserId, bundle: &PreKeyBundle) -> Result<
        SessionId,
        DomainError,
    >;

    /// Encrypts a plaintext for an established session.
    fn encrypt_message(&mut self, session_id: &SessionId, plaintext: &[u8]) -> Result<
        Vec<u8>,
        DomainError,
    >;

    /// Decrypts a ciphertext of an established session.
    fn decrypt_message(&mut self, session_id: &SessionId, ciphertext: &[u8]) -> Result<
        Vec<u8>,
        DomainError,
    >;

    /// Closes a session and purges its key material.
    fn close_session(&mut self, session_id: &SessionId) -> Result<(), DomainError>;
}

/// Port for message transport over the network.
pub trait MessageTransportPort {
    /// Sends an already encrypted payload to a recipient.
    fn send(&mut self, recipient: &UserId, payload: &[u8]) -> Result<(), DomainError>;

    /// Receives the next available payload and its user, in the order the
    /// payloads arrived.
    fn receive(&mut self) -> Result<(UserId, Vec<u8>), DomainError>;
}

/// Port for persistent storage of messages and events.
pub trait StoragePort {
    /// Stores a message.
    fn store_message(&mut self, message: &Message) -> Result<(), DomainError>;

    /// Retrieves a message by its identifier.
    fn get_message(&self, message_id: &str) -> Result<Message, DomainError>;

    /// Retrieves the messages of a session, ordered by sequence number.
    fn get_session_messages(&self, session_id: &SessionId) -> Result<Vec<Message>, DomainError>;

    /// Records a domain event.
    fn store_event(&mut self, event: &DomainEvent) -> Result<(), DomainError>;
}

/// Port for content moderation.
pub trait ModerationPort {
    /// Analyses a text for policy violations.
    fn moderate(&mut self, content: &str) -> Result<ModerationResult, DomainError>;
}

} // verus!
