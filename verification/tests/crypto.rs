use presidium::crypto::adapters::DevCryptoAdapter;
use presidium::crypto::generate_keys::generate_identity_keypair;
use presidium::crypto::keypair::{IdentityKeyPair, KeyExchangePair};
use presidium::crypto::pre_key::{to_pre_key_bundle, OneTimePreKey, SignedPreKey};
use presidium::domain::entities::UserId;
use presidium::ports::CryptoPort;

#[test]
fn test_identity_key_pair_fields() {
    let kp = IdentityKeyPair { public_key: [1u8; 32], private_key: [2u8; 32] };
    assert_eq!(kp.public_key.len(), 32);
}

#[test]
fn test_key_exchange_pair_fields() {
    let kp = KeyExchangePair { public_key: [3u8; 32], private_key: [4u8; 32] };
    assert_eq!(kp.private_key.len(), 32);
}

#[test]
fn test_signed_pre_key_creation() {
    let spk = SignedPreKey { id: 1, public_key: [42u8; 32], signature: vec![1, 2, 3] };
    assert_eq!(spk.id, 1);
    assert_eq!(spk.signature.len(), 3);
}

#[test]
fn test_to_pre_key_bundle() {
    let identity = [1u8; 32];
    let signed = SignedPreKey { id: 1, public_key: [2u8; 32], signature: vec![3; 64] };
    let one_time = OneTimePreKey { id: 100, public_key: [4u8; 32] };
    let bundle = to_pre_key_bundle(&identity, &signed, Some(&one_time));
    assert_eq!(bundle.identity_key.len(), 32);
    assert!(bundle.one_time_pre_key.is_some());
}

#[test]
fn pre_key_bundle_fields_are_copied() {
    let signed = SignedPreKey { id: 7, public_key: [9u8; 32], signature: vec![5, 6] };
    let bundle = to_pre_key_bundle(&[8u8, 8], &signed, None);
    assert_eq!(bundle.identity_key, vec![8u8, 8]);
    assert_eq!(bundle.signed_pre_key, vec![9u8; 32]);
    assert_eq!(bundle.signed_pre_key_signature, vec![5u8, 6]);
    assert!(bundle.one_time_pre_key.is_none());
}

#[test]
fn test_generate_identity_keypair() {
    let kp1 = generate_identity_keypair().expect("generate kp1");
    let kp2 = generate_identity_keypair().expect("generate kp2");
    assert_ne!(kp1.public_key, kp2.public_key);
    assert_ne!(kp1.private_key, kp2.private_key);
}

#[test]
fn test_dev_crypto_adapter_lifecycle() {
    let mut adapter = DevCryptoAdapter::new();
    let user = UserId::new([7u8; 32]);
    let bundle = adapter.create_pre_key_bundle().expect("create bundle");
    assert_eq!(bundle.identity_key.len(), 32);
    let session = adapter.establish_session(&user, &bundle).expect("session");
    let encrypted = adapter.encrypt_message(&session, b"hello").expect("encrypt");
    let decrypted = adapter.decrypt_message(&session, &encrypted).expect("decrypt");
    assert_eq!(decrypted, b"hello");
    adapter.close_session(&session).expect("close");
}

#[test]
fn dev_bundle_uses_the_identity_key() {
    let mut adapter = DevCryptoAdapter::new();
    let kp = IdentityKeyPair { public_key: [6u8; 32], private_key: [1u8; 32] };
    let bundle = adapter.create_pre_key_bundle_from(kp);
    assert_eq!(bundle.identity_key, vec![6u8; 32]);
    assert_eq!(bundle.signed_pre_key, vec![6u8; 32]);
    assert_eq!(bundle.signed_pre_key_signature, vec![0u8; 64]);
    assert!(bundle.one_time_pre_key.is_none());
    let session = adapter.establish_session(&UserId::new([0xab; 32]), &bundle).unwrap();
    assert_eq!(session.0, format!("crypto-session-{}", "ab".repeat(32)));
}

#[test]
fn dev_bundles_keep_the_first_identity() {
    let mut adapter = DevCryptoAdapter::new();
    let b1 = adapter.create_pre_key_bundle().expect("first bundle");
    let b2 = adapter.create_pre_key_bundle().expect("second bundle");
    assert_eq!(b1.identity_key, b2.identity_key);

    let mut adapter = DevCryptoAdapter::new();
    let first = IdentityKeyPair { public_key: [6u8; 32], private_key: [1u8; 32] };
    let other = IdentityKeyPair { public_key: [9u8; 32], private_key: [2u8; 32] };
    adapter.create_pre_key_bundle_from(first);
    let bundle = adapter.create_pre_key_bundle_from(other);
    assert_eq!(bundle.identity_key, vec![6u8; 32]);
    assert_eq!(adapter.create_pre_key_bundle().unwrap().identity_key, vec![6u8; 32]);
}
