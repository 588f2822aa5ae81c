//! End-to-end encryption port of the pipeline.

use crate::domain::entities::{SessionId, UserId};
use crate::pipeline::value_objects::{DeviceId, PreKeyBundle};
use crate::text::concat;
use vstd::prelude::*;
use vstd::string::StringExecFns;

verus! {

/// Failures of end-to-end encryption.
#[derive(Debug)]
pub enum CryptoError {
    /// Key generation failed.
    KeyGeneration(String),
    /// Establishing a session failed.
    SessionEstablishment(String),
    /// Encryption failed.
    Encryption(String),
    /// Decryption failed.
    Decryption(String),
    /// Rotating the ratchet failed.
    RatchetRotation(String),
}

impl CryptoError {
    /// The displayed text of an error.
    pub open spec fn text(&self) -> Seq<char> {
        match self {
            CryptoError::KeyGeneration(m) => "Key generation failed: "@ + m@,
            CryptoError::SessionEstablishment(m) => "Session establishment failed: "@ + m@,
            CryptoError::Encryption(m) => "Encryption failed: "@ + m@,
            CryptoError::Decryption(m) => "Decryption failed: "@ + m@,
            CryptoError::RatchetRotation(m) => "Ratchet rotation failed: "@ + m@,
        }
    }

    /// The displayed text of this error.
    pub fn to_string(&self) -> (r: String)
        ensures
            r@ == self.text(),
    {
        match self {
            CryptoError::KeyGeneration(m) => concat("Key generation failed: ", m.as_str()),
            CryptoError::SessionEstablishment(m) => concat("Session establishment failed: ", m.as_str()),
            CryptoError::Encryption(m) => concat("Encryption failed: ", m.as_str()),
            CryptoError::Decryption(m) => concat("Decryption failed: ", m.as_str()),
            CryptoError::RatchetRotation(m) => concat("Ratchet rotation failed: ", m.as_str()),
        }
    }
}

/// Session establishment and Double Ratchet encryption.
pub trait E2EECryptoPort {
    /// Generates the pre-key bundle of a device.
    fn generate_pre_key_bundle(&mut self, device_id: &DeviceId) -> Result<PreKeyBundle, CryptoError>;

    /// Establishes a session with a remote device from its bundle.
    fn establish_session(
        &mut self,
        remote_user: &UserId,
        remote_device: &DeviceId,
        bundle: &PreKeyBundle,
    ) -> Result<SessionId, CryptoError>;

    /// Encrypts a plaintext under a session.
    fn encrypt_message(&mut self, session_id: &SessionId, plaintext: &[u8]) -> Result<
        Vec<u8>,
        CryptoError,
    >;

    /// Decrypts a ciphertext under a session.
    fn decrypt_message(&mut self, session_id: &SessionId, ciphertext: &[u8]) -> Result<
        Vec<u8>,
        CryptoError,
    >;

    /// Rotates the ratchet of a session.
    fn rotate_ratchet(&mut self, session_id: &SessionId) -> Result<(), CryptoError>;
}

/// The Signal protocol adapter; its operations are not implemented yet.
pub struct LibSignalCryptoAdapter;

impl LibSignalCryptoAdapter {
    /// Creates the adapter.
    pub fn new() -> (r: Self) {
        LibSignalCryptoAdapter
    }
}

impl Default for LibSignalCryptoAdapter {
    fn default() -> (r: Self) {
        LibSignalCryptoAdapter
    }
}


/// The placeholder answers every request with the failure of that request,
/// saying it is not implemented.
impl E2EECryptoPort for LibSignalCryptoAdapter {
    fn generate_pre_key_bundle(&mut self, device_id: &DeviceId) -> (r: Result<PreKeyBundle, CryptoError>)
        ensures
            r matches Err(CryptoError::KeyGeneration(t)) && t@ == "not implemented"@,
    {
        Err(CryptoError::KeyGeneration(String::from_str("not implemented")))
    }

    fn establish_session(
        &mut self,
        remote_user: &UserId,
        remote_device: &DeviceId,
        bundle: &PreKeyBundle,
    ) -> (r: Result<SessionId, CryptoError>)
        ensures
            r matches Err(CryptoError::SessionEstablishment(t)) && t@ == "not implemented"@,
    {
        Err(CryptoError::SessionEstablishment(String::from_str("not implemented")))
    }

    fn encrypt_message(&mut self, session_id: &SessionId, plaintext: &[u8]) -> (r: Result<Vec<u8>, CryptoError>)
        ensures
            r matches Err(CryptoError::Encryption(t)) && t@ == "not implemented"@,
    {
        Err(CryptoError::Encryption(String::from_str("not implemented")))
    }

    fn decrypt_message(&mut self, session_id: &SessionId, ciphertext: &[u8]) -> (r: Result<Vec<u8>, CryptoError>)
        ensures
            r matches Err(CryptoError::Decryption(t)) && t@ == "not implemented"@,
    {
        Err(CryptoError::Decryption(String::from_str("not implemented")))
    }

    fn rotate_ratchet(&mut self, session_id: &SessionId) -> (r: Result<(), CryptoError>)
        ensures
            r matches Err(CryptoError::RatchetRotation(t)) && t@ == "not implemented"@,
    {
        Err(CryptoError::RatchetRotation(String::from_str("not implemented")))
    }
}

} // verus!
