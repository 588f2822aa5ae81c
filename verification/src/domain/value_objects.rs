//! Value objects: network addresses, key fingerprints and moderation results.

use crate::text::{hex_encode, hex_string};
use vstd::prelude::*;
use vstd::string::StringExecFns;

verus! {

/// A network address in multiaddr notation; never empty.
#[derive(Debug, Hash)]
pub struct Multiaddr(String);

impl View for Multiaddr {
    type V = Seq<char>;

    closed spec fn view(&self) -> Seq<char> {
        self.0@
    }
}

impl Multiaddr {
    /// Every address holds at least one character.
    #[verifier::type_invariant]
    pub closed spec fn nonempty(self) -> bool {
        self.0@.len() > 0
    }

    /// Creates an address; the empty text is rejected.
    pub fn new(addr: &str) -> (r: Result<Self, &'static str>)
        ensures
            addr@.len() == 0 <==> r is Err,
            r matches Ok(a) ==> a@ == addr@,
            r matches Err(e) ==> e@ == "multiaddr must not be empty"@,
    {
        let s = String::from_str(addr);
        if addr.is_empty() {
            return Err("multiaddr must not be empty");
        }
        Ok(Multiaddr(s))
    }

    /// The address text.
    pub fn as_str(&self) -> (r: &str)
        ensures
            r@ == self@,
    {
        self.0.as_str()
    }

    /// The displayed form, which is the address text itself.
    pub fn to_string(&self) -> (r: String)
        ensures
            r@ == self@,
    {
        self.0.clone()
    }
}

impl Clone for Multiaddr {
    fn clone(&self) -> (r: Self)
        ensures
            r == *self,
    {
        proof {
            use_type_invariant(self);
        }
        Multiaddr(self.0.clone())
    }
}

impl PartialEq for Multiaddr {
    fn eq(&self, other: &Self) -> (r: bool) {
        self.0 == other.0
    }
}

impl vstd::std_specs::cmp::PartialEqSpecImpl for Multiaddr {
    open spec fn obeys_eq_spec() -> bool {
        true
    }

    open spec fn eq_spec(&self, other: &Multiaddr) -> bool {
        self@ == other@
    }
}

impl Eq for Multiaddr {}

/// A 32-byte public-key fingerprint, shown in hexadecimal.
#[derive(Debug, Clone, Copy, Hash, PartialEq, Eq)]
pub struct KeyFingerprint(pub [u8; 32]);

impl KeyFingerprint {
    /// Creates a fingerprint from raw bytes.
    pub fn new(bytes: [u8; 32]) -> (r: Self)
        ensures
            r.0 == bytes,
    {
        KeyFingerprint(bytes)
    }

    /// Lower-case hexadecimal form (64 characters).
    pub fn to_hex(&self) -> (r: String)
        ensures
            r@ == hex_encode(self.0@),
            r@.len() == 64,
    {
        proof {
            vstd::array::array_len_matches_n(&self.0);
            crate::text::lemma_hex_encode_len(self.0@);
        }
        hex_string(self.0.as_slice())
    }
}

/// The decision of content moderation about a text.
#[derive(Debug, Clone, PartialEq, Eq)]
pub enum ModerationResult {
    /// Content may be delivered.
    Safe,
    /// Content is delivered with a warning.
    Flagged {
        /// Why the content was flagged.
        reason: String,
    },
    /// Content is blocked.
    Blocked {
        /// Category of violation.
        category: String,
        /// Why the content was blocked.
        reason: String,
    },
}

} // verus!
