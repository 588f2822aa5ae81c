use presidium::adapters::{
    StubCryptoAdapter, StubModerationAdapter, StubStorageAdapter, StubTransportAdapter,
};
use presidium::domain::entities::{Message, SessionId, UserId};
use std::cell::RefCell;
use std::rc::Rc;
use presidium::domain::errors::DomainError;
use presidium::domain::events::DomainEvent;
use presidium::domain::value_objects::ModerationResult;
use presidium::messaging::commands::{DeleteMessageCommand, SendMessageCommand, StartConversationCommand};
use presidium::messaging::dtos::{ConversationSummary, MessageSentResponse};
use presidium::messaging::send_message::{
    execute_send_message, SendMessageAction, SendMessageFlow, SendMessageReply,
};
use presidium::ports::{MessageTransportPort, ModerationPort, StoragePort};

fn make_test_command() -> SendMessageCommand {
    SendMessageCommand {
        sender_id: UserId::new([1u8; 32]),
        recipient_id: UserId::new([2u8; 32]),
        content: "Hello, Presidium!".into(),
    }
}

#[test]
fn test_send_message_command() {
    let sender = UserId::new([1u8; 32]);
    let recipient = UserId::new([2u8; 32]);
    let cmd = SendMessageCommand { sender_id: sender, recipient_id: recipient, content: "Hello, world!".into() };
    assert_eq!(cmd.content, "Hello, world!");
    let _ = StartConversationCommand { initiator_id: sender, invitee_id: recipient };
    let _ = DeleteMessageCommand { requester_id: sender, message_id: "m".into() };
}

#[test]
fn test_message_sent_response() {
    let resp = MessageSentResponse {
        message_id: "m1".into(),
        session_id: SessionId::new("s1"),
        timestamp_ms: 1000,
        delivered_immediately: true,
    };
    assert!(resp.delivered_immediately);
}

#[test]
fn test_conversation_summary() {
    let peer = UserId::new([1u8; 32]);
    let summary = ConversationSummary {
        peer_id: peer,
        last_message: "Hey there...".into(),
        last_activity_ms: 5000,
        unread_count: 3,
    };
    assert_eq!(summary.unread_count, 3);
}

#[test]
fn mod_test_send_message_success() {
    let cmd = make_test_command();
    let mut crypto = StubCryptoAdapter::new();
    let mut transport = StubTransportAdapter::new();
    let mut storage = StubStorageAdapter::new();
    let mut moderation = StubModerationAdapter::new();
    let response = execute_send_message(cmd, &mut crypto, &mut transport, &mut storage, &mut moderation)
        .expect("send message");
    assert!(!response.message_id.is_empty());
    assert!(response.delivered_immediately);
}

#[test]
fn test_send_empty_message_rejected() {
    let cmd = SendMessageCommand {
        sender_id: UserId::new([1u8; 32]),
        recipient_id: UserId::new([2u8; 32]),
        content: "   ".into(),
    };
    let mut crypto = StubCryptoAdapter::new();
    let mut transport = StubTransportAdapter::new();
    let mut storage = StubStorageAdapter::new();
    let mut moderation = StubModerationAdapter::new();
    let result = execute_send_message(cmd, &mut crypto, &mut transport, &mut storage, &mut moderation);
    assert!(result.is_err());
    match result.unwrap_err() {
        DomainError::InvalidMessage(msg) => assert!(msg.contains("empty")),
        other => panic!("expected InvalidMessage, got: {}", other.to_string()),
    }
}

#[test]
fn test_self_message_rejected() {
    let user = UserId::new([1u8; 32]);
    let cmd = SendMessageCommand { sender_id: user.clone(), recipient_id: user, content: "self".into() };
    let mut crypto = StubCryptoAdapter::new();
    let mut transport = StubTransportAdapter::new();
    let mut storage = StubStorageAdapter::new();
    let mut moderation = StubModerationAdapter::new();
    let result = execute_send_message(cmd, &mut crypto, &mut transport, &mut storage, &mut moderation);
    assert!(result.is_err());
}

#[test]
fn sent_message_is_stored_queued_and_transported() {
    let cmd = make_test_command();
    let mut crypto = StubCryptoAdapter::new();
    let mut transport = StubTransportAdapter::new();
    let mut storage = StubStorageAdapter::new();
    let mut moderation = StubModerationAdapter::new();
    let resp = execute_send_message(cmd, &mut crypto, &mut transport, &mut storage, &mut moderation).unwrap();
    let expected_session = format!("session-{}-{}", "01".repeat(32), "02".repeat(32));
    assert_eq!(resp.session_id.0, expected_session);
    assert_eq!(resp.message_id.len(), 32);
    assert!(resp.message_id.chars().all(|c| c.is_ascii_hexdigit() && !c.is_ascii_uppercase()));
    let stored = storage.get_message(&resp.message_id).unwrap();
    assert_eq!(stored.content, "Hello, Presidium!");
    assert_eq!(stored.sequence, 0);
    assert_eq!(stored.timestamp_ms, resp.timestamp_ms);
    let (to, payload) = transport.receive().unwrap();
    assert_eq!(to, UserId::new([2u8; 32]));
    assert_eq!(payload, b"Hello, Presidium!".to_vec());
}

struct Blocking;

impl ModerationPort for Blocking {
    fn moderate(&mut self, _content: &str) -> Result<ModerationResult, DomainError> {
        Ok(ModerationResult::Blocked { category: "extremism".into(), reason: "violates policy".into() })
    }
}

#[test]
fn blocked_content_is_refused_before_encryption() {
    let mut crypto = StubCryptoAdapter::new();
    let mut transport = StubTransportAdapter::new();
    let mut storage = StubStorageAdapter::new();
    let mut moderation = Blocking;
    let result = execute_send_message(make_test_command(), &mut crypto, &mut transport, &mut storage, &mut moderation);
    match result {
        Err(DomainError::InvalidMessage(m)) => assert_eq!(m, "content blocked (extremism): violates policy"),
        other => panic!("unexpected {other:?}"),
    }
    assert!(transport.receive().is_err());
    assert!(storage.get_session_messages(&SessionId::new("any")).unwrap().is_empty());
}

struct FailingTransport;

impl MessageTransportPort for FailingTransport {
    fn send(&mut self, _recipient: &UserId, _payload: &[u8]) -> Result<(), DomainError> {
        Err(DomainError::ResourceUnavailable("offline".into()))
    }

    fn receive(&mut self) -> Result<(UserId, Vec<u8>), DomainError> {
        Err(DomainError::ResourceUnavailable("offline".into()))
    }
}

#[test]
fn transport_failure_is_returned_after_storing() {
    let mut crypto = StubCryptoAdapter::new();
    let mut transport = FailingTransport;
    let mut storage = StubStorageAdapter::new();
    let mut moderation = StubModerationAdapter::new();
    let result = execute_send_message(make_test_command(), &mut crypto, &mut transport, &mut storage, &mut moderation);
    match result {
        Err(DomainError::ResourceUnavailable(m)) => assert_eq!(m, "offline"),
        other => panic!("unexpected {other:?}"),
    }
}

#[test]
fn flow_steps_in_order() {
    let (mut flow, action) = SendMessageFlow::start(make_test_command());
    match action {
        SendMessageAction::Moderate { content } => assert_eq!(content, "Hello, Presidium!"),
        other => panic!("unexpected {other:?}"),
    }
    let a = flow.advance(SendMessageReply::Moderation(Ok(ModerationResult::Flagged { reason: "r".into() })));
    let session = match a {
        SendMessageAction::Encrypt { session_id, plaintext } => {
            assert_eq!(plaintext, b"Hello, Presidium!".to_vec());
            session_id
        },
        other => panic!("unexpected {other:?}"),
    };
    let a = flow.advance(SendMessageReply::Encryption(Ok(vec![9, 9])));
    let message = match a {
        SendMessageAction::StoreMessage { message } => message,
        other => panic!("unexpected {other:?}"),
    };
    assert_eq!(message.session_id, session);
    match flow.advance(SendMessageReply::Completion(Ok(()))) {
        SendMessageAction::Transport { recipient, payload } => {
            assert_eq!(recipient, UserId::new([2u8; 32]));
            assert_eq!(payload, vec![9, 9]);
        },
        other => panic!("unexpected {other:?}"),
    }
    match flow.advance(SendMessageReply::Completion(Ok(()))) {
        SendMessageAction::StoreEvent { event: DomainEvent::MessageQueued { message: m } } => assert_eq!(m.id, message.id),
        other => panic!("unexpected {other:?}"),
    }
    match flow.advance(SendMessageReply::Completion(Ok(()))) {
        SendMessageAction::Finish { result: Ok(r) } => {
            assert_eq!(r.message_id, message.id);
            assert_eq!(r.timestamp_ms, message.timestamp_ms);
        },
        other => panic!("unexpected {other:?}"),
    }
}

#[test]
fn flow_accepts_moderation_with_given_id_and_time() {
    let (mut flow, _) = SendMessageFlow::start(make_test_command());
    match flow.accept_moderation("abc".into(), 77) {
        SendMessageAction::Encrypt { session_id, .. } => {
            assert_eq!(session_id.0, format!("session-{}-{}", "01".repeat(32), "02".repeat(32)))
        },
        other => panic!("unexpected {other:?}"),
    }
    match flow.advance(SendMessageReply::Encryption(Err(DomainError::OperationFailed("x".into())))) {
        SendMessageAction::Finish { result: Err(DomainError::OperationFailed(m)) } => assert_eq!(m, "x"),
        other => panic!("unexpected {other:?}"),
    }
}

#[derive(Clone, Default)]
struct CallLog(Rc<RefCell<Vec<&'static str>>>);

struct LoggingStorage(CallLog);

impl StoragePort for LoggingStorage {
    fn store_message(&mut self, _message: &Message) -> Result<(), DomainError> {
        self.0 .0.borrow_mut().push("store_message");
        Ok(())
    }

    fn get_message(&self, message_id: &str) -> Result<Message, DomainError> {
        Err(DomainError::MessageNotFound(message_id.into()))
    }

    fn get_session_messages(&self, _session_id: &SessionId) -> Result<Vec<Message>, DomainError> {
        Ok(vec![])
    }

    fn store_event(&mut self, _event: &DomainEvent) -> Result<(), DomainError> {
        self.0 .0.borrow_mut().push("store_event");
        Ok(())
    }
}

struct LoggingTransport(CallLog, bool);

impl MessageTransportPort for LoggingTransport {
    fn send(&mut self, _recipient: &UserId, _payload: &[u8]) -> Result<(), DomainError> {
        self.0 .0.borrow_mut().push("send");
        if self.1 {
            Ok(())
        } else {
            Err(DomainError::ResourceUnavailable("offline".into()))
        }
    }

    fn receive(&mut self) -> Result<(UserId, Vec<u8>), DomainError> {
        Err(DomainError::ResourceUnavailable("offline".into()))
    }
}

#[test]
fn event_is_recorded_after_the_transport() {
    let log = CallLog::default();
    let mut crypto = StubCryptoAdapter::new();
    let mut transport = LoggingTransport(log.clone(), true);
    let mut storage = LoggingStorage(log.clone());
    let mut moderation = StubModerationAdapter::new();
    execute_send_message(make_test_command(), &mut crypto, &mut transport, &mut storage, &mut moderation)
        .unwrap();
    assert_eq!(*log.0.borrow(), vec!["store_message", "send", "store_event"]);
}

#[test]
fn failed_transport_records_no_event() {
    let log = CallLog::default();
    let mut crypto = StubCryptoAdapter::new();
    let mut transport = LoggingTransport(log.clone(), false);
    let mut storage = LoggingStorage(log.clone());
    let mut moderation = StubModerationAdapter::new();
    let result =
        execute_send_message(make_test_command(), &mut crypto, &mut transport, &mut storage, &mut moderation);
    assert!(matches!(result, Err(DomainError::ResourceUnavailable(_))));
    assert_eq!(*log.0.borrow(), vec!["store_message", "send"]);
}

#[test]
fn flow_without_a_drawn_id_ends_with_an_error() {
    let (mut flow, _) = SendMessageFlow::start(make_test_command());
    match flow.accept_drawn_id(None, 5) {
        SendMessageAction::Finish { result: Err(DomainError::OperationFailed(m)) } => {
            assert_eq!(m, "message id generation failed")
        },
        other => panic!("unexpected {other:?}"),
    }
    let (mut flow, _) = SendMessageFlow::start(make_test_command());
    match flow.accept_drawn_id(Some("ab".repeat(16)), 5) {
        SendMessageAction::Encrypt { plaintext, .. } => assert_eq!(plaintext, b"Hello, Presidium!".to_vec()),
        other => panic!("unexpected {other:?}"),
    }
}
