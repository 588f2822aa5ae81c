# presidium

The core of Presidium Messenger, a decentralized end-to-end encrypted
peer-to-peer messenger, as a library verified with Verus.

## Layout

- `src/` — the verified library.
  - `domain/` — user and session identifiers, messages, events, errors,
    addresses and moderation results.
  - `ports.rs` — the ports of the core (crypto, transport, storage,
    moderation); `adapters.rs` — their in-memory development adapters.
  - `messaging/` — the send-message use case: `SendMessageFlow` decides, one
    port call at a time, and `execute_send_message` runs it.
  - `storage/`, `crypto/`, `p2p/`, `llm/` — conversations and contacts, key
    material, peers and the DHT, local language models.
  - `pipeline/` — the device-level pipeline: E2EE, P2P, message store and
    moderation ports, and the `SendMessageInteractor` with its
    `OutgoingMessageFlow`.
  - `registry.rs`, `message_order.rs`, `text.rs` — keyed collections, message
    ordering and text helpers that the rest is proved with.
  - `clock.rs`, `entropy.rs` — the system clock and random source, behind
    small trusted wrappers.
- `tests/` — tests of the library.
- `app/` — what stays outside verification: configuration loading (figment),
  tracing setup, serde forms of library types, and the floating-point scores
  of language model moderation.

Every public operation states its effect in its contract; the laws that tie
operations together (a read returns what was written, decrypting undoes
encrypting, asking twice for a conversation changes nothing, ...) are proof
functions named `law_*`.
