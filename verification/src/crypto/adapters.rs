//! A development crypto adapter: real random identity keys, no encryption.

use crate::adapters::{
    session_for,
    sessions_after_close,
    stub_ciphertext,
    stub_plaintext,
    without_session,
};
use crate::bytes::{zero_bytes, zeros};
use crate::crypto::generate_keys::generate_identity_keypair;
use crate::crypto::keypair::IdentityKeyPair;
use crate::crypto::pre_key::{to_pre_key_bundle, SignedPreKey};
use crate::domain::entities::{SessionId, UserId};
use crate::domain::errors::DomainError;
use crate::ports::{CryptoPort, PreKeyBundle};
use crate::registry::Registry;
use crate::text::hex_encode;
use vstd::prelude::*;

verus! {

/// The session name the development adapter gives a session with a user.
pub open spec fn dev_session_name(user: Seq<u8>) -> Seq<char> {
    "crypto-session-"@ + hex_encode(user)
}

/// Whether `b` is the bundle made for the identity key pair `kp`: the public
/// key as identity and signed pre-key, a placeholder all-zero signature of 64
/// bytes, no one-time pre-key.
pub open spec fn is_dev_bundle(kp: IdentityKeyPair, b: PreKeyBundle) -> bool {
    &&& b.identity_key@ == kp.public_key@
    &&& b.signed_pre_key@ == kp.public_key@
    &&& b.signed_pre_key_signature@ == zeros(64)
    &&& b.one_time_pre_key is None
}

/// Two bundles made for the kept identity carry the same identity key: once
/// the adapter keeps an identity, the identity key of its bundles does not
/// change.
pub proof fn law_bundle_identity_is_stable(kp: IdentityKeyPair, first: PreKeyBundle, later: PreKeyBundle)
    requires
        is_dev_bundle(kp, first),
        is_dev_bundle(kp, later),
    ensures
        first.identity_key@ == later.identity_key@,
{
}

/// A crypto adapter that generates random identity keys but performs no
/// encryption: ciphertext is plaintext.
pub struct DevCryptoAdapter {
    identity: Option<IdentityKeyPair>,
    sessions: Registry<UserId, SessionId>,
}

impl DevCryptoAdapter {
    #[verifier::type_invariant]
    spec fn inv(self) -> bool {
        self.sessions.wf()
    }

    /// The identity key pair, once one was generated.
    pub closed spec fn identity(self) -> Option<IdentityKeyPair> {
        self.identity
    }

    /// The established sessions, by the bytes of the remote user.
    pub closed spec fn sessions(self) -> Map<Seq<u8>, SessionId> {
        self.sessions.as_map()
    }

    /// An adapter with no identity and no sessions.
    pub fn new() -> (r: Self)
        ensures
            r.identity() is None,
            r.sessions() == Map::<Seq<u8>, SessionId>::empty(),
    {
        DevCryptoAdapter { identity: None, sessions: Registry::new() }
    }

    /// Keeps `kp` as identity when none is kept yet, then makes the bundle of
    /// the kept identity.
    pub fn create_pre_key_bundle_from(&mut self, kp: IdentityKeyPair) -> (r: PreKeyBundle)
        ensures
            final(self).identity() == if old(self).identity() is None {
                Some(kp)
            } else {
                old(self).identity()
            },
            final(self).identity() matches Some(k) && is_dev_bundle(k, r),
            final(self).sessions() == old(self).sessions(),
    {
        proof {
            use_type_invariant(&*self);
        }
        let k = match self.identity {
            Some(k) => k,
            None => {
                self.identity = Some(kp);
                kp
            },
        };
        let signed = SignedPreKey { id: 1, public_key: k.public_key, signature: zero_bytes(64) };
        to_pre_key_bundle(k.public_key.as_slice(), &signed, None)
    }
}

impl DevCryptoAdapter {
    /// Makes a bundle given the outcome of drawing a key pair: a kept identity
    /// is used as it is; otherwise the drawn pair becomes the identity and the
    /// bundle carries its public key, and a failed draw is returned as it came.
    pub fn create_pre_key_bundle_with(&mut self, drawn: Result<IdentityKeyPair, DomainError>) -> (r:
        Result<PreKeyBundle, DomainError>)
        ensures
            final(self).sessions() == old(self).sessions(),
            old(self).identity() matches Some(k) ==> {
                &&& r matches Ok(b) && is_dev_bundle(k, b)
                &&& final(self).identity() == old(self).identity()
            },
            old(self).identity() is None ==> match drawn {
                Ok(kp) => {
                    &&& final(self).identity() == Some(kp)
                    &&& r matches Ok(b) && is_dev_bundle(kp, b)
                },
                Err(e) => {
                    &&& r == Err::<PreKeyBundle, DomainError>(e)
                    &&& final(self).identity() is None
                },
            },
    {
        if let Some(kp) = self.identity {
            return Ok(self.create_pre_key_bundle_from(kp));
        }
        match drawn {
            Ok(kp) => Ok(self.create_pre_key_bundle_from(kp)),
            Err(e) => Err(e),
        }
    }
}

/// Bundles made from different drawn key pairs carry different identity
/// keys: a fresh adapter's bundle carries the public key of the pair it drew.
pub proof fn law_distinct_draws_give_distinct_identity_keys(
    first: IdentityKeyPair,
    second: IdentityKeyPair,
    b1: PreKeyBundle,
    b2: PreKeyBundle,
)
    requires
        first.public_key@ != second.public_key@,
        is_dev_bundle(first, b1),
        is_dev_bundle(second, b2),
    ensures
        b1.identity_key@ != b2.identity_key@,
{
}

impl Default for DevCryptoAdapter {
    fn default() -> (r: Self)
        ensures
            r.identity() is None,
            r.sessions() == Map::<Seq<u8>, SessionId>::empty(),
    {
        Self::new()
    }
}

impl CryptoPort for DevCryptoAdapter {
    fn create_pre_key_bundle(&mut self) -> (r: Result<PreKeyBundle, DomainError>)
        ensures
            final(self).sessions() == old(self).sessions(),
            old(self).identity() matches Some(k) ==> {
                &&& r matches Ok(b) && is_dev_bundle(k, b)
                &&& final(self).identity() == old(self).identity()
            },
            r is Err ==> final(self).identity() == old(self).identity(),
            r matches Ok(b) ==> (final(self).identity() matches Some(k) && is_dev_bundle(k, b)),
            r matches Err(e) ==> (e matches DomainError::OperationFailed(t) && t@
                == "key generation failed"@),
    {
        if let Some(kp) = self.identity {
            return Ok(self.create_pre_key_bundle_from(kp));
        }
        self.create_pre_key_bundle_with(generate_identity_keypair())
    }

    fn establish_session(&mut self, remote_user: &UserId, bundle: &PreKeyBundle) -> (r: Result<
        SessionId,
        DomainError,
    >)
        ensures
            r matches Ok(s) && s@ == dev_session_name(remote_user@),
            final(self).sessions() == old(self).sessions().insert(remote_user@, r->Ok_0),
            final(self).identity() == old(self).identity(),
    {
        proof {
            use_type_invariant(&*self);
        }
        let sid = session_for("crypto-session-", remote_user);
        let mut reg = Registry::new();
        std::mem::swap(&mut reg, &mut self.sessions);
        reg.insert(*remote_user, sid.clone());
        self.sessions = reg;
        Ok(sid)
    }

    fn encrypt_message(&mut self, session_id: &SessionId, plaintext: &[u8]) -> (r: Result<
        Vec<u8>,
        DomainError,
    >)
        ensures
            r matches Ok(c) && c@ == stub_ciphertext(plaintext@),
            final(self).sessions() == old(self).sessions(),
            final(self).identity() == old(self).identity(),
    {
        Ok(vstd::slice::slice_to_vec(plaintext))
    }

    fn decrypt_message(&mut self, session_id: &SessionId, ciphertext: &[u8]) -> (r: Result<
        Vec<u8>,
        DomainError,
    >)
        ensures
            r matches Ok(p) && p@ == stub_plaintext(ciphertext@),
            final(self).sessions() == old(self).sessions(),
            final(self).identity() == old(self).identity(),
    {
        Ok(vstd::slice::slice_to_vec(ciphertext))
    }

    fn close_session(&mut self, session_id: &SessionId) -> (r: Result<(), DomainError>)
        ensures
            r is Ok,
            sessions_after_close(old(self).sessions(), session_id@, final(self).sessions()),
            final(self).identity() == old(self).identity(),
    {
        proof {
            use_type_invariant(&*self);
        }
        let kept = without_session(&self.sessions, session_id);
        self.sessions = kept;
        Ok(())
    }
}

} // verus!
