//! Identifiers, timestamps and key bundles of the pipeline.

use crate::clock::current_timestamp_ms;
use crate::entropy::random_bytes;
use crate::messaging::send_message::message_id_from_draw;
use crate::text::hex_encode;
use vstd::prelude::*;

verus! {

/// Identifier of one of a user's devices.
#[derive(Debug, Clone, Copy, PartialEq, Eq, Hash, Structural)]
pub struct DeviceId(pub u32);

/// Identifier of a message: 16 random bytes in hexadecimal.
#[derive(Debug)]
pub struct MessageId(pub String);

impl Clone for MessageId {
    fn clone(&self) -> (r: Self)
        ensures
            r == *self,
    {
        MessageId(self.0.clone())
    }
}

/// Whether `id` has the form of a message identifier.
pub open spec fn is_message_id_text(id: Seq<char>) -> bool {
    exists|b: Seq<u8>| b.len() == 16 && id == hex_encode(b)
}

impl MessageId {
    /// The identifier made from a draw of 16 random bytes: the bytes in
    /// hexadecimal when the draw succeeded, none when it failed.
    pub fn from_draw(drawn: Result<[u8; 16], rand::Error>) -> (r: Option<Self>)
        ensures
            match drawn {
                Ok(b) => r matches Some(id) && id.0@ == hex_encode(b@),
                Err(_) => r is None,
            },
            r matches Some(id) ==> is_message_id_text(id.0@),
    {
        match message_id_from_draw(drawn) {
            Some(s) => Some(MessageId(s)),
            None => None,
        }
    }

    /// A fresh identifier from the operating system's random source (see
    /// [`MessageId::from_draw`]), or `None` when the source fails.
    pub fn generate() -> (r: Option<Self>)
        ensures
            r matches Some(id) ==> is_message_id_text(id.0@),
    {
        MessageId::from_draw(random_bytes::<16>())
    }
}

/// A point in time, in Unix epoch milliseconds.
#[derive(Debug, Clone, Copy, PartialEq, Eq, Structural)]
pub struct Timestamp(pub u64);

impl Timestamp {
    /// The current time.
    pub fn now() -> Self {
        Timestamp(current_timestamp_ms())
    }
}

/// Public key material of a device for session establishment.
#[derive(Debug, Clone)]
pub struct PreKeyBundle {
    /// The identity public key.
    pub identity_key: Vec<u8>,
    /// The signed pre-key.
    pub signed_pre_key: Vec<u8>,
    /// Signature of the signed pre-key.
    pub pre_key_signature: Vec<u8>,
    /// A one-time pre-key, if any is left.
    pub one_time_pre_key: Option<Vec<u8>>,
    /// Registration identifier of the device.
    pub registration_id: u32,
}

} // verus!
