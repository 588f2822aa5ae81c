use presidium::adapters::{
    StubCryptoAdapter, StubModerationAdapter, StubStorageAdapter, StubTransportAdapter,
};
use presidium::domain::entities::{Message, SessionId, UserId};
use presidium::domain::errors::DomainError;
use presidium::domain::events::DomainEvent;
use presidium::domain::value_objects::ModerationResult;
use presidium::ports::{CryptoPort, MessageTransportPort, ModerationPort, PreKeyBundle, StoragePort};

struct MockCryptoPort;

impl CryptoPort for MockCryptoPort {
    fn create_pre_key_bundle(&mut self) -> Result<PreKeyBundle, DomainError> {
        Ok(PreKeyBundle {
            identity_key: vec![1; 32],
            signed_pre_key: vec![2; 32],
            signed_pre_key_signature: vec![3; 64],
            one_time_pre_key: Some(vec![4; 32]),
        })
    }

    fn establish_session(&mut self, _remote_user: &UserId, _bundle: &PreKeyBundle) -> Result<SessionId, DomainError> {
        Ok(SessionId::new("test-session"))
    }

    fn encrypt_message(&mut self, _session_id: &SessionId, plaintext: &[u8]) -> Result<Vec<u8>, DomainError> {
        Ok(plaintext.to_vec())
    }

    fn decrypt_message(&mut self, _session_id: &SessionId, ciphertext: &[u8]) -> Result<Vec<u8>, DomainError> {
        Ok(ciphertext.to_vec())
    }

    fn close_session(&mut self, _session_id: &SessionId) -> Result<(), DomainError> {
        Ok(())
    }
}

#[test]
fn test_mock_crypto_port_roundtrip() {
    let mut crypto = MockCryptoPort;
    let bundle = crypto.create_pre_key_bundle().expect("bundle creation");
    assert_eq!(bundle.identity_key.len(), 32);
    let user = UserId::new([1u8; 32]);
    let session = crypto.establish_session(&user, &bundle).expect("session establishment");
    assert_eq!(session.0, "test-session");
    let plaintext = b"hello presidium";
    let ciphertext = crypto.encrypt_message(&session, plaintext).expect("encrypt");
    let decrypted = crypto.decrypt_message(&session, &ciphertext).expect("decrypt");
    assert_eq!(decrypted, plaintext);
    crypto.close_session(&session).expect("close session");
}

#[test]
fn test_stub_crypto_adapter_lifecycle() {
    let mut adapter = StubCryptoAdapter::new();
    let user = UserId::new([5u8; 32]);
    let bundle = adapter.create_pre_key_bundle().expect("create bundle");
    let session = adapter.establish_session(&user, &bundle).expect("establish");
    let encrypted = adapter.encrypt_message(&session, b"test").expect("encrypt");
    let decrypted = adapter.decrypt_message(&session, &encrypted).expect("decrypt");
    assert_eq!(decrypted, b"test");
    adapter.close_session(&session).expect("close");
}

#[test]
fn stub_crypto_bundle_and_session_names() {
    let mut adapter = StubCryptoAdapter::default();
    let bundle = adapter.create_pre_key_bundle().unwrap();
    assert_eq!(bundle.identity_key, vec![0u8; 32]);
    assert_eq!(bundle.signed_pre_key, vec![0u8; 32]);
    assert_eq!(bundle.signed_pre_key_signature, vec![0u8; 64]);
    assert_eq!(bundle.one_time_pre_key, Some(vec![0u8; 32]));
    let s = adapter.establish_session(&UserId::new([0x0c; 32]), &bundle).unwrap();
    assert_eq!(s.0, format!("stub-session-{}", "0c".repeat(32)));
}

#[test]
fn test_stub_transport_send_receive() {
    let mut adapter = StubTransportAdapter::new();
    let recipient = UserId::new([1u8; 32]);
    adapter.send(&recipient, b"payload").expect("send");
    let (recv_user, data) = adapter.receive().expect("receive");
    assert_eq!(recv_user, recipient);
    assert_eq!(data, b"payload");
}

#[test]
fn stub_transport_is_first_in_first_out_and_reports_empty() {
    let mut adapter = StubTransportAdapter::new();
    let a = UserId::new([1u8; 32]);
    let b = UserId::new([2u8; 32]);
    adapter.send(&a, b"first").unwrap();
    adapter.send(&b, b"second").unwrap();
    assert_eq!(adapter.receive().unwrap(), (a, b"first".to_vec()));
    assert_eq!(adapter.receive().unwrap(), (b, b"second".to_vec()));
    match adapter.receive() {
        Err(DomainError::ResourceUnavailable(m)) => assert_eq!(m, "no messages in stub inbox"),
        other => panic!("unexpected {other:?}"),
    }
}

#[test]
fn test_stub_storage_roundtrip() {
    let mut adapter = StubStorageAdapter::new();
    let sender = UserId::new([1u8; 32]);
    let recipient = UserId::new([2u8; 32]);
    let session = SessionId::new("s1");
    let msg = Message::new("m1", sender, recipient, session.clone(), "hello", 100, 0);
    adapter.store_message(&msg).expect("store");
    let retrieved = adapter.get_message("m1").expect("retrieve");
    assert_eq!(retrieved.content, "hello");
    let session_msgs = adapter.get_session_messages(&session).expect("session msgs");
    assert_eq!(session_msgs.len(), 1);
}

#[test]
fn stub_storage_orders_by_sequence_stably() {
    let mut adapter = StubStorageAdapter::new();
    let s = UserId::new([1u8; 32]);
    let r = UserId::new([2u8; 32]);
    let s1 = SessionId::new("s1");
    let s2 = SessionId::new("s2");
    for (id, sess, seq) in [("a", &s1, 3u64), ("b", &s2, 1), ("c", &s1, 1), ("d", &s1, 3), ("e", &s1, 2)] {
        adapter.store_message(&Message::new(id, s, r, sess.clone(), id, 0, seq)).unwrap();
    }
    let ids: Vec<String> = adapter.get_session_messages(&s1).unwrap().into_iter().map(|m| m.id).collect();
    assert_eq!(ids, vec!["c", "e", "a", "d"]);
    assert!(adapter.get_session_messages(&SessionId::new("none")).unwrap().is_empty());
}

#[test]
fn stub_storage_lookup_takes_first_and_reports_missing() {
    let mut adapter = StubStorageAdapter::new();
    let s = UserId::new([1u8; 32]);
    let r = UserId::new([2u8; 32]);
    adapter.store_message(&Message::new("m", s, r, SessionId::new("x"), "one", 0, 0)).unwrap();
    adapter.store_message(&Message::new("m", s, r, SessionId::new("x"), "two", 0, 1)).unwrap();
    assert_eq!(adapter.get_message("m").unwrap().content, "one");
    match adapter.get_message("zz") {
        Err(DomainError::MessageNotFound(id)) => assert_eq!(id, "zz"),
        other => panic!("unexpected {other:?}"),
    }
    let ev = DomainEvent::MessageRead { message_id: "m".into(), reader: r };
    assert!(adapter.store_event(&ev).is_ok());
}

#[test]
fn test_stub_moderation_always_safe() {
    let mut adapter = StubModerationAdapter::new();
    let result = adapter.moderate("any content").expect("moderate");
    assert_eq!(result, ModerationResult::Safe);
}

#[test]
fn stub_adapters_satisfy_ports() {
    let mut crypto = StubCryptoAdapter::new();
    let mut transport = StubTransportAdapter::new();
    let mut storage = StubStorageAdapter::new();
    let mut moderation = StubModerationAdapter::new();
    let bundle = crypto.create_pre_key_bundle().expect("bundle");
    assert_eq!(bundle.identity_key.len(), 32);
    let user = UserId::new([1u8; 32]);
    transport.send(&user, b"test").expect("send");
    let sender = UserId::new([1u8; 32]);
    let recipient = UserId::new([2u8; 32]);
    let session = SessionId::new("test-session");
    let msg = Message::new("m1", sender, recipient, session.clone(), "hi", 100, 0);
    storage.store_message(&msg).expect("store");
    let fetched = storage.get_message("m1").expect("get");
    assert_eq!(fetched.content, "hi");
    let result = moderation.moderate("hello world").expect("moderate");
    assert_eq!(result, ModerationResult::Safe);
}
