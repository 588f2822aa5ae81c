use presidium::domain::entities::{Message, SessionId, UserId};
use presidium::domain::errors::DomainError;
use presidium::domain::events::DomainEvent;
use presidium::ports::StoragePort;
use presidium::storage::adapters::InMemoryStorageAdapter;
use presidium::storage::ports::ExtendedStoragePort;
use presidium::storage::schema::{Contact, Conversation};

#[test]
fn test_extended_storage_port_is_object_safe() {
    fn _use(_: &dyn ExtendedStoragePort) {}
}

#[test]
fn test_conversation_creation() {
    let user1 = UserId::new([1u8; 32]);
    let user2 = UserId::new([2u8; 32]);
    let session = SessionId::new("s1");
    let conv = Conversation {
        id: "conv-1".into(),
        participants: (user1, user2),
        session_id: session,
        last_activity_ms: 1000,
        message_count: 0,
    };
    assert_eq!(conv.message_count, 0);
    assert_eq!(conv.id, "conv-1");
}

#[test]
fn test_contact_creation() {
    let user = UserId::new([1u8; 32]);
    let contact = Contact {
        user_id: user,
        display_name: "Alice".into(),
        avatar: None,
        verified: false,
        added_at_ms: 500,
    };
    assert_eq!(contact.display_name, "Alice");
    assert!(!contact.verified);
}

#[test]
fn test_in_memory_message_roundtrip() {
    let mut adapter = InMemoryStorageAdapter::new();
    let sender = UserId::new([1u8; 32]);
    let recipient = UserId::new([2u8; 32]);
    let session = SessionId::new("s1");
    let msg = Message::new("m1", sender, recipient, session, "hello", 100, 0);

    adapter.store_message(&msg).expect("store");
    let fetched = adapter.get_message("m1").expect("get");
    assert_eq!(fetched.content, "hello");
}

#[test]
fn test_conversation_create_and_list() {
    let mut adapter = InMemoryStorageAdapter::new();
    let user1 = UserId::new([1u8; 32]);
    let user2 = UserId::new([2u8; 32]);

    let conv = adapter.get_or_create_conversation(&user1, &user2).expect("create");
    assert_eq!(conv.message_count, 0);

    let conv2 = adapter.get_or_create_conversation(&user1, &user2).expect("get");
    assert_eq!(conv.id, conv2.id);

    let list = adapter.list_conversations().expect("list");
    assert_eq!(list.len(), 1);
}

#[test]
fn test_contact_save_and_retrieve() {
    let mut adapter = InMemoryStorageAdapter::new();
    let user = UserId::new([3u8; 32]);
    let contact = Contact {
        user_id: user.clone(),
        display_name: "Bob".into(),
        avatar: None,
        verified: true,
        added_at_ms: 1000,
    };

    adapter.save_contact(&contact).expect("save");
    let fetched = adapter.get_contact(&user).expect("get");
    assert!(fetched.is_some());
    let fetched = fetched.unwrap();
    assert_eq!(fetched.display_name, "Bob");
    assert!(fetched.verified);
}

#[test]
fn test_delete_conversation() {
    let mut adapter = InMemoryStorageAdapter::new();
    let user1 = UserId::new([1u8; 32]);
    let user2 = UserId::new([2u8; 32]);

    let conv = adapter.get_or_create_conversation(&user1, &user2).expect("create");
    adapter.delete_conversation(&conv.id).expect("delete");

    let list = adapter.list_conversations().expect("list");
    assert_eq!(list.len(), 0);
}

#[test]
fn in_memory_missing_message_is_not_found() {
    let adapter = InMemoryStorageAdapter::default();
    match adapter.get_message("nope") {
        Err(DomainError::MessageNotFound(id)) => assert_eq!(id, "nope"),
        other => panic!("expected MessageNotFound, got {:?}", other),
    }
}

#[test]
fn conversation_key_is_symmetric_and_ordered() {
    let mut adapter = InMemoryStorageAdapter::new();
    let a = UserId::new([0xaau8; 32]);
    let b = UserId::new([0x01u8; 32]);
    let c1 = adapter.get_or_create_conversation(&a, &b).unwrap();
    let c2 = adapter.get_or_create_conversation(&b, &a).unwrap();
    let expected = format!("{}-{}", "01".repeat(32), "aa".repeat(32));
    assert_eq!(c1.id, expected);
    assert_eq!(c2.id, expected);
    assert_eq!(c1.session_id.0, format!("conv-{}", expected));
    assert_eq!(c1.participants, (a, b));
    assert_eq!(c2.participants, (a, b));
    assert_eq!(c1.last_activity_ms, 0);
    assert_eq!(adapter.list_conversations().unwrap().len(), 1);
}

#[test]
fn list_conversations_most_recent_first() {
    let mut adapter = InMemoryStorageAdapter::new();
    let a = UserId::new([1u8; 32]);
    let b = UserId::new([2u8; 32]);
    let c = UserId::new([3u8; 32]);
    adapter.get_or_create_conversation(&a, &b).unwrap();
    adapter.get_or_create_conversation(&a, &c).unwrap();
    adapter.get_or_create_conversation(&b, &c).unwrap();
    let list = adapter.list_conversations().unwrap();
    assert_eq!(list.len(), 3);
    for w in list.windows(2) {
        assert!(w[0].last_activity_ms >= w[1].last_activity_ms);
    }
}

#[test]
fn session_messages_sorted_by_sequence() {
    let mut adapter = InMemoryStorageAdapter::new();
    let a = UserId::new([1u8; 32]);
    let b = UserId::new([2u8; 32]);
    let s = SessionId::new("s");
    let other = SessionId::new("t");
    adapter.store_message(&Message::new("m3", a, b, s.clone(), "three", 3, 3)).unwrap();
    adapter.store_message(&Message::new("m1", a, b, s.clone(), "one", 1, 1)).unwrap();
    adapter.store_message(&Message::new("x", a, b, other, "other", 2, 2)).unwrap();
    adapter.store_message(&Message::new("m2", b, a, s.clone(), "two", 2, 2)).unwrap();
    let msgs = adapter.get_session_messages(&s).unwrap();
    let contents: Vec<&str> = msgs.iter().map(|m| m.content.as_str()).collect();
    assert_eq!(contents, vec!["one", "two", "three"]);
}

#[test]
fn store_message_overwrites_same_id() {
    let mut adapter = InMemoryStorageAdapter::new();
    let a = UserId::new([1u8; 32]);
    let b = UserId::new([2u8; 32]);
    let s = SessionId::new("s");
    adapter.store_message(&Message::new("m", a, b, s.clone(), "first", 1, 1)).unwrap();
    adapter.store_message(&Message::new("m", a, b, s.clone(), "second", 2, 2)).unwrap();
    assert_eq!(adapter.get_message("m").unwrap().content, "second");
    assert_eq!(adapter.get_session_messages(&s).unwrap().len(), 1);
}

#[test]
fn missing_contact_is_none_and_events_store() {
    let mut adapter = InMemoryStorageAdapter::new();
    assert!(adapter.get_contact(&UserId::new([9u8; 32])).unwrap().is_none());
    let ev = DomainEvent::SessionEstablished {
        initiator: UserId::new([8u8; 32]),
        responder: UserId::new([9u8; 32]),
        session_id: SessionId::new("s"),
    };
    assert!(adapter.store_event(&ev).is_ok());
}

#[test]
fn delete_conversation_removes_its_messages() {
    let mut adapter = InMemoryStorageAdapter::new();
    let a = UserId::new([1u8; 32]);
    let b = UserId::new([2u8; 32]);
    let conv = adapter.get_or_create_conversation(&a, &b).unwrap();
    let other = SessionId::new("elsewhere");
    adapter.store_message(&Message::new("m1", a, b, conv.session_id.clone(), "in", 1, 1)).unwrap();
    adapter.store_message(&Message::new("m2", a, b, other.clone(), "out", 2, 2)).unwrap();
    adapter.delete_conversation(&conv.id).unwrap();
    assert!(adapter.list_conversations().unwrap().is_empty());
    assert!(adapter.get_session_messages(&conv.session_id).unwrap().is_empty());
    assert!(matches!(adapter.get_message("m1"), Err(DomainError::MessageNotFound(_))));
    assert_eq!(adapter.get_message("m2").unwrap().content, "out");
}

#[test]
fn deleting_an_unknown_conversation_keeps_messages() {
    let mut adapter = InMemoryStorageAdapter::new();
    let a = UserId::new([1u8; 32]);
    let b = UserId::new([2u8; 32]);
    adapter.store_message(&Message::new("m1", a, b, SessionId::new("s"), "kept", 1, 1)).unwrap();
    adapter.delete_conversation("nope").unwrap();
    assert_eq!(adapter.get_message("m1").unwrap().content, "kept");
}

#[test]
fn stored_conversation_keeps_its_key_and_session() {
    let mut adapter = InMemoryStorageAdapter::new();
    let a = UserId::new([0xaau8; 32]);
    let b = UserId::new([0x01u8; 32]);
    let first = adapter.get_or_create_conversation(&b, &a).unwrap();
    let again = adapter.get_or_create_conversation(&a, &b).unwrap();
    let key = format!("{}-{}", "01".repeat(32), "aa".repeat(32));
    assert_eq!(again.id, key);
    assert_eq!(again.session_id.0, format!("conv-{}", key));
    assert_eq!(again.participants, first.participants);
}
