use presidium::domain::entities::{SessionId, UserId};
use presidium::pipeline::di::build_send_message_use_case;
use presidium::pipeline::e2ee::{CryptoError, E2EECryptoPort, LibSignalCryptoAdapter};
use presidium::pipeline::language_model::{CandleLlmAdapter, LLMError, LLMPort};
use presidium::pipeline::message_store::{MessageStoragePort, RedbStorageAdapter, StorageError, StoredMessage};
use presidium::pipeline::moderation::{ContentVerdict, LocalModerationAdapter, ModerationError, ModerationPort};
use presidium::pipeline::network::{Libp2pNetworkAdapter, NetworkError, P2PPort};
use presidium::pipeline::send_message::{
    dummy_bundle, OutgoingAction, OutgoingMessageFlow, OutgoingReply, SendMessageError,
    SendMessageInput, SendMessageInteractor, SendMessageUseCase,
};
use presidium::pipeline::value_objects::{DeviceId, MessageId, PreKeyBundle, Timestamp};

#[derive(Default)]
struct MockCrypto {
    session: Option<Result<SessionId, String>>,
    ciphertext: Option<Result<Vec<u8>, String>>,
    establish_calls: usize,
    encrypt_calls: Vec<Vec<u8>>,
}

impl E2EECryptoPort for MockCrypto {
    fn generate_pre_key_bundle(&mut self, _device_id: &DeviceId) -> Result<PreKeyBundle, CryptoError> {
        panic!("unexpected call to generate_pre_key_bundle")
    }

    fn establish_session(
        &mut self,
        _remote_user: &UserId,
        _remote_device: &DeviceId,
        _bundle: &PreKeyBundle,
    ) -> Result<SessionId, CryptoError> {
        self.establish_calls += 1;
        match self.session.clone().expect("unexpected call to establish_session") {
            Ok(s) => Ok(s),
            Err(e) => Err(CryptoError::SessionEstablishment(e)),
        }
    }

    fn encrypt_message(&mut self, _session_id: &SessionId, plaintext: &[u8]) -> Result<Vec<u8>, CryptoError> {
        self.encrypt_calls.push(plaintext.to_vec());
        match self.ciphertext.clone().expect("unexpected call to encrypt_message") {
            Ok(c) => Ok(c),
            Err(e) => Err(CryptoError::Encryption(e)),
        }
    }

    fn decrypt_message(&mut self, _session_id: &SessionId, _ciphertext: &[u8]) -> Result<Vec<u8>, CryptoError> {
        panic!("unexpected call to decrypt_message")
    }

    fn rotate_ratchet(&mut self, _session_id: &SessionId) -> Result<(), CryptoError> {
        panic!("unexpected call to rotate_ratchet")
    }
}

#[derive(Default)]
struct MockP2P {
    send: Option<Result<(), String>>,
    sent: Vec<(DeviceId, Vec<u8>)>,
}

impl P2PPort for MockP2P {
    fn send_p2p(&mut self, target_device: &DeviceId, data: Vec<u8>) -> Result<(), NetworkError> {
        self.sent.push((*target_device, data));
        match self.send.clone().expect("unexpected call to send_p2p") {
            Ok(()) => Ok(()),
            Err(e) => Err(NetworkError::SendFailed(e)),
        }
    }

    fn receive_p2p(&mut self) -> Result<Option<Vec<u8>>, NetworkError> {
        panic!("unexpected call to receive_p2p")
    }

    fn publish_pre_keys(&mut self, _user_id: &UserId, _device_id: &DeviceId, _bundle: &[u8]) -> Result<(), NetworkError> {
        panic!("unexpected call to publish_pre_keys")
    }

    fn fetch_pre_keys(&mut self, _user_id: &UserId, _device_id: &DeviceId) -> Result<Vec<u8>, NetworkError> {
        panic!("unexpected call to fetch_pre_keys")
    }

    fn subscribe_topic(&mut self, _topic: &str) -> Result<(), NetworkError> {
        panic!("unexpected call to subscribe_topic")
    }
}

#[derive(Default)]
struct MockStorage {
    save: Option<Result<(), String>>,
    saved: Vec<StoredMessage>,
}

impl MessageStoragePort for MockStorage {
    fn save_outgoing_message(&mut self, msg: StoredMessage) -> Result<(), StorageError> {
        self.saved.push(msg);
        match self.save.clone().expect("unexpected call to save_outgoing_message") {
            Ok(()) => Ok(()),
            Err(e) => Err(StorageError::SaveFailed(e)),
        }
    }

    fn save_incoming_message(&mut self, _msg: StoredMessage) -> Result<(), StorageError> {
        panic!("unexpected call to save_incoming_message")
    }

    fn mark_delivered(&mut self, _msg_id: &MessageId) -> Result<(), StorageError> {
        panic!("unexpected call to mark_delivered")
    }

    fn mark_read(&mut self, _msg_id: &MessageId) -> Result<(), StorageError> {
        panic!("unexpected call to mark_read")
    }

    fn get_messages_for_user(&mut self, _user_id: &UserId, _limit: u32) -> Result<Vec<StoredMessage>, StorageError> {
        panic!("unexpected call to get_messages_for_user")
    }
}

#[derive(Default)]
struct MockModeration {
    verdict: Option<ContentVerdict>,
    sarcophagus: Option<Vec<u8>>,
    sealed: Vec<(UserId, String, String)>,
}

impl ModerationPort for MockModeration {
    fn check_message(&mut self, _sender: &UserId, _plaintext: &str) -> Result<ContentVerdict, ModerationError> {
        Ok(self.verdict.clone().expect("unexpected call to check_message"))
    }

    fn create_sarcophagus(&mut self, offender: &UserId, evidence: &str, reason: &str) -> Result<Vec<u8>, ModerationError> {
        self.sealed.push((*offender, evidence.to_string(), reason.to_string()));
        Ok(self.sarcophagus.clone().expect("unexpected call to create_sarcophagus"))
    }
}

fn alice() -> UserId {
    UserId::new([0xa1u8; 32])
}

fn bob() -> UserId {
    UserId::new([0xb0u8; 32])
}

fn make_input() -> SendMessageInput {
    SendMessageInput {
        sender: alice(),
        sender_device: DeviceId(1),
        recipient: bob(),
        recipient_device: DeviceId(2),
        plaintext: "Hello, Bob!".to_string(),
    }
}

#[test]
fn send_message_test_test_send_message_success() {
    let crypto = MockCrypto {
        session: Some(Ok(SessionId::new(""))),
        ciphertext: Some(Ok(b"ciphertext".to_vec())),
        ..Default::default()
    };
    let p2p = MockP2P { send: Some(Ok(())), ..Default::default() };
    let storage = MockStorage { save: Some(Ok(())), ..Default::default() };
    let moderation = MockModeration { verdict: Some(ContentVerdict::Safe), ..Default::default() };

    let mut interactor = SendMessageInteractor::new(crypto, p2p, storage, moderation);
    let result = interactor.execute(make_input());
    assert!(result.is_ok(), "Expected success, got: {:?}", result.err());
}

#[test]
fn test_send_message_blocked_by_moderation() {
    let moderation = MockModeration {
        verdict: Some(ContentVerdict::Unsafe("violates policy".to_string())),
        sarcophagus: Some(vec![1, 2, 3]),
        ..Default::default()
    };
    let mut interactor = SendMessageInteractor::new(
        MockCrypto::default(),
        MockP2P::default(),
        MockStorage::default(),
        moderation,
    );
    let result = interactor.execute(make_input());
    assert!(result.is_err());
    let err_msg = result.unwrap_err().to_string();
    assert!(err_msg.contains("Content blocked"), "Expected rejection, got: {}", err_msg);
}

#[test]
fn test_send_message_crypto_failure() {
    let crypto = MockCrypto { session: Some(Err("key error".to_string())), ..Default::default() };
    let moderation = MockModeration { verdict: Some(ContentVerdict::Safe), ..Default::default() };
    let mut interactor =
        SendMessageInteractor::new(crypto, MockP2P::default(), MockStorage::default(), moderation);
    let result = interactor.execute(make_input());
    assert!(result.is_err());
}

#[test]
fn test_send_message_network_failure() {
    let crypto = MockCrypto {
        session: Some(Ok(SessionId::new(""))),
        ciphertext: Some(Ok(b"ciphertext".to_vec())),
        ..Default::default()
    };
    let p2p = MockP2P { send: Some(Err("timeout".to_string())), ..Default::default() };
    let storage = MockStorage { save: Some(Ok(())), ..Default::default() };
    let moderation = MockModeration { verdict: Some(ContentVerdict::Safe), ..Default::default() };
    let mut interactor = SendMessageInteractor::new(crypto, p2p, storage, moderation);
    let result = interactor.execute(make_input());
    assert!(result.is_err());
}

#[test]
fn test_send_message_storage_failure() {
    let crypto = MockCrypto {
        session: Some(Ok(SessionId::new(""))),
        ciphertext: Some(Ok(b"ciphertext".to_vec())),
        ..Default::default()
    };
    let storage = MockStorage { save: Some(Err("disk full".to_string())), ..Default::default() };
    let moderation = MockModeration { verdict: Some(ContentVerdict::Safe), ..Default::default() };
    let mut interactor = SendMessageInteractor::new(crypto, MockP2P::default(), storage, moderation);
    let result = interactor.execute(make_input());
    assert!(result.is_err());
}

#[test]
fn rejection_error_texts_and_sealed_evidence() {
    let moderation = MockModeration {
        verdict: Some(ContentVerdict::Unsafe("violates policy".to_string())),
        sarcophagus: Some(vec![1, 2, 3]),
        ..Default::default()
    };
    let mut interactor = SendMessageInteractor::new(
        MockCrypto::default(),
        MockP2P::default(),
        MockStorage::default(),
        moderation,
    );
    match interactor.execute(make_input()) {
        Err(SendMessageError::Rejected(t)) => assert_eq!(t, "Content blocked: violates policy"),
        other => panic!("expected Rejected, got {:?}", other),
    }
    let e = SendMessageError::Rejected("Content blocked: violates policy".to_string());
    assert_eq!(e.to_string(), "Message rejected: Content blocked: violates policy");
}

#[test]
fn failure_errors_name_their_port() {
    let crypto = MockCrypto { session: Some(Err("key error".to_string())), ..Default::default() };
    let moderation = MockModeration { verdict: Some(ContentVerdict::Safe), ..Default::default() };
    let mut interactor =
        SendMessageInteractor::new(crypto, MockP2P::default(), MockStorage::default(), moderation);
    let e = interactor.execute(make_input()).unwrap_err();
    assert_eq!(e.to_string(), "Crypto error: Session establishment failed: key error");

    let crypto = MockCrypto {
        session: Some(Ok(SessionId::new("s"))),
        ciphertext: Some(Ok(b"ciphertext".to_vec())),
        ..Default::default()
    };
    let storage = MockStorage { save: Some(Err("disk full".to_string())), ..Default::default() };
    let moderation = MockModeration { verdict: Some(ContentVerdict::Safe), ..Default::default() };
    let mut interactor = SendMessageInteractor::new(crypto, MockP2P::default(), storage, moderation);
    let e = interactor.execute(make_input()).unwrap_err();
    assert_eq!(e.to_string(), "Storage error: Save failed: disk full");

    let crypto = MockCrypto {
        session: Some(Ok(SessionId::new("s"))),
        ciphertext: Some(Ok(b"ciphertext".to_vec())),
        ..Default::default()
    };
    let p2p = MockP2P { send: Some(Err("timeout".to_string())), ..Default::default() };
    let storage = MockStorage { save: Some(Ok(())), ..Default::default() };
    let moderation = MockModeration { verdict: Some(ContentVerdict::Safe), ..Default::default() };
    let mut interactor = SendMessageInteractor::new(crypto, p2p, storage, moderation);
    let e = interactor.execute(make_input()).unwrap_err();
    assert_eq!(e.to_string(), "Network error: Send failed: timeout");
}

#[test]
fn success_saves_then_sends_the_ciphertext() {
    let crypto = MockCrypto {
        session: Some(Ok(SessionId::new("s"))),
        ciphertext: Some(Ok(b"ciphertext".to_vec())),
        ..Default::default()
    };
    let p2p = MockP2P { send: Some(Ok(())), ..Default::default() };
    let storage = MockStorage { save: Some(Ok(())), ..Default::default() };
    let moderation = MockModeration { verdict: Some(ContentVerdict::NeedsReview), ..Default::default() };
    let mut interactor = SendMessageInteractor::new(crypto, p2p, storage, moderation);
    let out = interactor.execute(make_input()).expect("sent");
    assert_eq!(out.message_id.0.len(), 32);
    assert!(out.message_id.0.chars().all(|c| c.is_ascii_hexdigit() && !c.is_ascii_uppercase()));
}

#[test]
fn flow_records_the_outgoing_message() {
    let (mut flow, action) = OutgoingMessageFlow::start(make_input());
    match action {
        OutgoingAction::CheckContent { sender, plaintext } => {
            assert_eq!(sender, alice());
            assert_eq!(plaintext, "Hello, Bob!");
        }
        other => panic!("expected CheckContent, got {:?}", other),
    }
    match flow.advance(OutgoingReply::Verdict(Ok(ContentVerdict::Safe))) {
        OutgoingAction::EstablishSession { remote_user, remote_device, bundle } => {
            assert_eq!(remote_user, bob());
            assert_eq!(remote_device, DeviceId(2));
            assert_eq!(bundle.identity_key, vec![0u8; 32]);
            assert_eq!(bundle.pre_key_signature, vec![0u8; 64]);
        }
        other => panic!("expected EstablishSession, got {:?}", other),
    }
    match flow.advance(OutgoingReply::Session(Ok(SessionId::new("s")))) {
        OutgoingAction::Encrypt { session_id, plaintext } => {
            assert_eq!(session_id.0, "s");
            assert_eq!(plaintext, b"Hello, Bob!".to_vec());
        }
        other => panic!("expected Encrypt, got {:?}", other),
    }
    let id = match flow.advance(OutgoingReply::Ciphertext(Ok(vec![7, 8, 9]))) {
        OutgoingAction::SaveOutgoing { message } => {
            assert_eq!(message.sender, alice());
            assert_eq!(message.recipient, bob());
            assert_eq!(message.ciphertext, vec![7, 8, 9]);
            assert!(!message.delivered);
            assert!(!message.read);
            message.id
        }
        other => panic!("expected SaveOutgoing, got {:?}", other),
    };
    match flow.advance(OutgoingReply::Saved(Ok(()))) {
        OutgoingAction::Send { target_device, data } => {
            assert_eq!(target_device, DeviceId(2));
            assert_eq!(data, vec![7, 8, 9]);
        }
        other => panic!("expected Send, got {:?}", other),
    }
    match flow.advance(OutgoingReply::Sent(Ok(()))) {
        OutgoingAction::Finish { result: Ok(out) } => assert_eq!(out.message_id.0, id.0),
        other => panic!("expected Finish, got {:?}", other),
    }
}

#[test]
fn flow_accepts_given_id_and_time() {
    let (mut flow, _) = OutgoingMessageFlow::start(make_input());
    flow.advance(OutgoingReply::Verdict(Ok(ContentVerdict::Safe)));
    flow.advance(OutgoingReply::Session(Ok(SessionId::new("s"))));
    let action = flow.accept_ciphertext(vec![1], MessageId("ab".repeat(16)), Timestamp(42));
    match action {
        OutgoingAction::SaveOutgoing { message } => {
            assert_eq!(message.id.0, "ab".repeat(16));
            assert_eq!(message.timestamp, Timestamp(42));
        }
        other => panic!("expected SaveOutgoing, got {:?}", other),
    }
}

#[test]
fn dummy_bundle_is_all_zero() {
    let b = dummy_bundle();
    assert_eq!(b.identity_key, vec![0u8; 32]);
    assert_eq!(b.signed_pre_key, vec![0u8; 32]);
    assert_eq!(b.pre_key_signature, vec![0u8; 64]);
    assert_eq!(b.one_time_pre_key, Some(vec![0u8; 32]));
    assert_eq!(b.registration_id, 0);
}

#[test]
fn built_use_case_stops_at_the_local_moderation() {
    let mut uc = build_send_message_use_case();
    match uc.execute(make_input()) {
        Err(SendMessageError::Moderation(ModerationError::CheckFailed(t))) => assert_eq!(t, "not implemented"),
        other => panic!("expected a moderation failure, got {:?}", other),
    }
}

#[test]
fn placeholder_adapters_answer_not_implemented() {
    let mut crypto = LibSignalCryptoAdapter::new();
    assert!(matches!(crypto.generate_pre_key_bundle(&DeviceId(1)), Err(CryptoError::KeyGeneration(t)) if t == "not implemented"));
    assert!(matches!(crypto.rotate_ratchet(&SessionId::new("s")), Err(CryptoError::RatchetRotation(_))));
    let mut net = Libp2pNetworkAdapter::new();
    assert!(matches!(net.send_p2p(&DeviceId(1), vec![1]), Err(NetworkError::SendFailed(t)) if t == "not implemented"));
    assert!(matches!(net.subscribe_topic("t"), Err(NetworkError::SubscriptionFailed(_))));
    let mut store = RedbStorageAdapter::new();
    assert!(matches!(store.mark_read(&MessageId("x".into())), Err(StorageError::UpdateFailed(_))));
    assert!(matches!(store.get_messages_for_user(&alice(), 3), Err(StorageError::ReadFailed(_))));
    let mut moderation = LocalModerationAdapter::new();
    assert!(matches!(moderation.create_sarcophagus(&alice(), "e", "r"), Err(ModerationError::SarcophagusFailed(_))));
    let mut llm = CandleLlmAdapter::new();
    assert!(matches!(llm.load_model("/m.gguf", 4), Err(LLMError::ModelLoading(t)) if t == "not implemented"));
    assert!(matches!(llm.infer("p", 8), Err(LLMError::Inference(_))));
    assert!(!llm.is_loaded());
}

#[test]
fn flow_without_a_drawn_id_fails_to_save() {
    let (mut flow, _) = OutgoingMessageFlow::start(make_input());
    flow.advance(OutgoingReply::Verdict(Ok(ContentVerdict::Safe)));
    flow.advance(OutgoingReply::Session(Ok(SessionId::new("s"))));
    match flow.accept_drawn_id(vec![1], None, Timestamp(5)) {
        OutgoingAction::Finish { result: Err(SendMessageError::Storage(StorageError::SaveFailed(t))) } => {
            assert_eq!(t, "message id generation failed")
        }
        other => panic!("expected Finish, got {:?}", other),
    }
    let (mut flow, _) = OutgoingMessageFlow::start(make_input());
    flow.advance(OutgoingReply::Verdict(Ok(ContentVerdict::Safe)));
    flow.advance(OutgoingReply::Session(Ok(SessionId::new("s"))));
    match flow.accept_drawn_id(vec![1], Some(MessageId("cd".repeat(16))), Timestamp(5)) {
        OutgoingAction::SaveOutgoing { message } => assert_eq!(message.id.0, "cd".repeat(16)),
        other => panic!("expected SaveOutgoing, got {:?}", other),
    }
}

#[test]
fn port_error_texts() {
    assert_eq!(ModerationError::CheckFailed("x".into()).to_string(), "Moderation check failed: x");
    assert_eq!(CryptoError::Decryption("y".into()).to_string(), "Decryption failed: y");
    assert_eq!(NetworkError::SubscriptionFailed("t".into()).to_string(), "Subscription failed: t");
    assert_eq!(StorageError::NotFound("m".into()).to_string(), "Not found: m");
    assert_eq!(LLMError::NotLoaded.to_string(), "Model not loaded");
    assert_eq!(LLMError::Inference("q".into()).to_string(), "Inference failed: q");
    assert!(!CandleLlmAdapter::new().is_loaded());
    assert_eq!(
        SendMessageError::Moderation(ModerationError::SarcophagusFailed("z".into())).to_string(),
        "Moderation failed: Sarcophagus creation failed: z"
    );
}
