//! Core entities: user and session identifiers and the plaintext message.

use crate::text::{hex_encode, hex_string, push_hex};
use vstd::prelude::*;
use vstd::string::StringExecFns;

verus! {

/// Identifier of a user: the 32 bytes of an Ed25519 public-key fingerprint.
#[derive(Debug, Clone, Copy, Hash)]
pub struct UserId(pub [u8; 32]);

impl View for UserId {
    type V = Seq<u8>;

    open spec fn view(&self) -> Seq<u8> {
        self.0@
    }
}

impl PartialEq for UserId {
    fn eq(&self, other: &Self) -> (r: bool) {
        let mut i: usize = 0;
        while i < 32
            invariant
                i <= 32,
                self.0@.len() == 32,
                other.0@.len() == 32,
                forall|j: int| 0 <= j < i ==> self.0@[j] == other.0@[j],
            decreases 32 - i,
        {
            if self.0[i] != other.0[i] {
                return false;
            }
            i += 1;
        }
        assert(self.0@ =~= other.0@);
        true
    }
}

impl vstd::std_specs::cmp::PartialEqSpecImpl for UserId {
    open spec fn obeys_eq_spec() -> bool {
        true
    }

    open spec fn eq_spec(&self, other: &UserId) -> bool {
        self@ == other@
    }
}

impl Eq for UserId {}

/// How a user identifier is shown: `UserId(` + hex + `)`.
pub open spec fn user_id_display(id: Seq<u8>) -> Seq<char> {
    "UserId("@ + hex_encode(id) + ")"@
}

impl UserId {
    /// Creates a user identifier from its 32 bytes.
    pub fn new(bytes: [u8; 32]) -> (r: Self)
        ensures
            r.0 == bytes,
    {
        UserId(bytes)
    }

    /// The raw bytes of this identifier.
    pub fn as_bytes(&self) -> (r: &[u8; 32])
        ensures
            *r == self.0,
    {
        &self.0
    }

    /// Lower-case hexadecimal form of the identifier (64 characters).
    pub fn to_hex(&self) -> (r: String)
        ensures
            r@ == hex_encode(self@),
            r@.len() == 64,
    {
        proof {
            vstd::array::array_len_matches_n(&self.0);
            crate::text::lemma_hex_encode_len(self@);
        }
        hex_string(self.0.as_slice())
    }

    /// The displayed form, `UserId(<hex>)`.
    pub fn to_string(&self) -> (r: String)
        ensures
            r@ == user_id_display(self@),
    {
        let mut s = String::from_str("UserId(");
        push_hex(&mut s, self.0.as_slice());
        s.append(")");
        s
    }
}

/// Identifier of an encrypted messaging session.
#[derive(Debug, Hash)]
pub struct SessionId(pub String);

impl View for SessionId {
    type V = Seq<char>;

    open spec fn view(&self) -> Seq<char> {
        self.0@
    }
}

impl Clone for SessionId {
    fn clone(&self) -> (r: Self)
        ensures
            r == *self,
    {
        SessionId(self.0.clone())
    }
}

impl PartialEq for SessionId {
    fn eq(&self, other: &Self) -> (r: bool) {
        self.0 == other.0
    }
}

impl vstd::std_specs::cmp::PartialEqSpecImpl for SessionId {
    open spec fn obeys_eq_spec() -> bool {
        true
    }

    open spec fn eq_spec(&self, other: &SessionId) -> bool {
        self@ == other@
    }
}

impl Eq for SessionId {}

impl SessionId {
    /// Creates a session identifier from its text.
    pub fn new(id: &str) -> (r: Self)
        ensures
            r@ == id@,
    {
        SessionId(String::from_str(id))
    }

    /// The displayed form, `SessionId(<id>)`.
    pub fn to_string(&self) -> (r: String)
        ensures
            r@ == "SessionId("@ + self@ + ")"@,
    {
        let mut s = String::from_str("SessionId(");
        s.append(self.0.as_str());
        s.append(")");
        s
    }
}

/// A plaintext message of the network, before encryption.
#[derive(Debug)]
pub struct Message {
    /// Unique message identifier.
    pub id: String,
    /// Sender of the message.
    pub sender_id: UserId,
    /// Recipient of the message.
    pub recipient_id: UserId,
    /// Session under which the message is encrypted.
    pub session_id: SessionId,
    /// Plaintext content.
    pub content: String,
    /// Unix epoch milliseconds.
    pub timestamp_ms: u64,
    /// Sequence number within the session.
    pub sequence: u64,
}

impl Clone for Message {
    fn clone(&self) -> (r: Self)
        ensures
            r == *self,
    {
        Message {
            id: self.id.clone(),
            sender_id: self.sender_id,
            recipient_id: self.recipient_id,
            session_id: self.session_id.clone(),
            content: self.content.clone(),
            timestamp_ms: self.timestamp_ms,
            sequence: self.sequence,
        }
    }
}

impl Message {
    /// Creates a message; a user cannot message themself.
    pub fn new(
        id: &str,
        sender_id: UserId,
        recipient_id: UserId,
        session_id: SessionId,
        content: &str,
        timestamp_ms: u64,
        sequence: u64,
    ) -> (r: Self)
        requires
            sender_id@ != recipient_id@,
        ensures
            r.id@ == id@,
            r.sender_id == sender_id,
            r.recipient_id == recipient_id,
            r.session_id == session_id,
            r.content@ == content@,
            r.timestamp_ms == timestamp_ms,
            r.sequence == sequence,
    {
        Message {
            id: String::from_str(id),
            sender_id,
            recipient_id,
            session_id,
            content: String::from_str(content),
            timestamp_ms,
            sequence,
        }
    }
}

} // verus!
