//! The send-message use case.
//!
//! Sending a message validates the command, asks moderation about the
//! content, builds the message, encrypts it, stores the message, hands the
//! ciphertext to the transport and then records a `MessageQueued` event; the
//! first failure ends the pipeline with its error.
//!
//! The decisions are made by [`SendMessageFlow`], which says at each step
//! which port to call with which arguments and, given what the port
//! answered, what comes next. [`execute_send_message`] runs a flow against
//! concrete ports.

use crate::clock::current_timestamp_ms;
use crate::domain::entities::{Message, SessionId, UserId};
use crate::domain::errors::DomainError;
use crate::domain::events::DomainEvent;
use crate::domain::value_objects::ModerationResult;
use crate::entropy::random_bytes;
use crate::messaging::commands::SendMessageCommand;
use crate::messaging::dtos::MessageSentResponse;
use crate::ports::{CryptoPort, MessageTransportPort, ModerationPort, StoragePort};
use crate::text::{hex_encode, hex_string, is_blank, lemma_hex_encode_injective, push_hex, str_is_blank};
use vstd::prelude::*;
use vstd::string::StringExecFns;

verus! {

/// The session under which `sender` writes to `recipient`.
pub open spec fn session_name(sender: Seq<u8>, recipient: Seq<u8>) -> Seq<char> {
    "session-"@ + hex_encode(sender) + "-"@ + hex_encode(recipient)
}

/// The reason given when moderation blocks content.
pub open spec fn blocked_text(category: Seq<char>, reason: Seq<char>) -> Seq<char> {
    "content blocked ("@ + category + "): "@ + reason
}

/// A message identifier: 16 random bytes in hexadecimal.
pub open spec fn is_message_id(id: Seq<char>) -> bool {
    exists|b: Seq<u8>| b.len() == 16 && id == hex_encode(b)
}

/// The plaintext handed to encryption: the UTF-8 bytes of the content.
pub open spec fn plaintext_of(content: Seq<char>) -> Seq<u8> {
    vstd::utf8::encode_utf8(content)
}

/// Whether a command may be sent at all: its content is not blank and it is
/// not addressed to its sender.
pub open spec fn is_sendable(cmd: SendMessageCommand) -> bool {
    !is_blank(cmd.content@) && cmd.sender_id@ != cmd.recipient_id@
}

/// Whether `m` is the message built for the command: from its sender to its
/// recipient, with its content, under their session, first in sequence.
pub open spec fn is_outgoing_message(cmd: SendMessageCommand, m: Message) -> bool {
    &&& m.sender_id == cmd.sender_id
    &&& m.recipient_id == cmd.recipient_id
    &&& m.session_id@ == session_name(cmd.sender_id@, cmd.recipient_id@)
    &&& m.content@ == cmd.content@
    &&& m.sequence == 0
}

/// What the flow asks to be done next.
#[derive(Debug)]
pub enum SendMessageAction {
    /// Ask moderation about the content.
    Moderate {
        /// The text to moderate.
        content: String,
    },
    /// Encrypt the plaintext under the session.
    Encrypt {
        /// The session.
        session_id: SessionId,
        /// The plaintext bytes.
        plaintext: Vec<u8>,
    },
    /// Store the message.
    StoreMessage {
        /// The message.
        message: Message,
    },
    /// Record the event.
    StoreEvent {
        /// The event.
        event: DomainEvent,
    },
    /// Send the payload to the recipient.
    Transport {
        /// The recipient.
        recipient: UserId,
        /// The encrypted payload.
        payload: Vec<u8>,
    },
    /// The use case is over with this result.
    Finish {
        /// The outcome.
        result: Result<MessageSentResponse, DomainError>,
    },
}

/// What a port answered to the last action.
#[derive(Debug)]
pub enum SendMessageReply {
    /// The answer of moderation.
    Moderation(Result<ModerationResult, DomainError>),
    /// The answer of encryption.
    Encryption(Result<Vec<u8>, DomainError>),
    /// The answer of storage or transport.
    Completion(Result<(), DomainError>),
}

/// Where a flow stands.
#[derive(Debug)]
pub enum SendMessageStage {
    /// Waiting for moderation.
    Moderating,
    /// Waiting for encryption of the message.
    Encrypting {
        /// The message being sent.
        message: Message,
    },
    /// Waiting for the message to be stored.
    StoringMessage {
        /// The message being sent.
        message: Message,
        /// Its ciphertext.
        ciphertext: Vec<u8>,
    },
    /// Waiting for the transport.
    Transporting {
        /// The message being sent.
        message: Message,
    },
    /// Waiting for the event to be recorded.
    StoringEvent {
        /// The message that was sent.
        message: Message,
    },
    /// Over.
    Finished,
}

/// Which reply each stage waits for.
pub open spec fn awaits(stage: SendMessageStage, reply: SendMessageReply) -> bool {
    match stage {
        SendMessageStage::Moderating => reply is Moderation,
        SendMessageStage::Encrypting { .. } => reply is Encryption,
        SendMessageStage::StoringMessage { .. } => reply is Completion,
        SendMessageStage::Transporting { .. } => reply is Completion,
        SendMessageStage::StoringEvent { .. } => reply is Completion,
        SendMessageStage::Finished => false,
    }
}

/// How many port calls a stage is at most away from the end.
pub open spec fn remaining_calls(stage: SendMessageStage) -> nat {
    match stage {
        SendMessageStage::Moderating => 5,
        SendMessageStage::Encrypting { .. } => 4,
        SendMessageStage::StoringMessage { .. } => 3,
        SendMessageStage::Transporting { .. } => 2,
        SendMessageStage::StoringEvent { .. } => 1,
        SendMessageStage::Finished => 0,
    }
}

/// Whether the action is the one a flow at the stage has asked for.
pub open spec fn asks_for(stage: SendMessageStage, action: SendMessageAction) -> bool {
    match stage {
        SendMessageStage::Moderating => action is Moderate,
        SendMessageStage::Encrypting { .. } => action is Encrypt,
        SendMessageStage::StoringMessage { .. } => action is StoreMessage,
        SendMessageStage::Transporting { .. } => action is Transport,
        SendMessageStage::StoringEvent { .. } => action is StoreEvent,
        SendMessageStage::Finished => action is Finish,
    }
}

/// The response that reports a sent message.
pub open spec fn response_for(m: Message, r: MessageSentResponse) -> bool {
    &&& r.message_id == m.id
    &&& r.session_id == m.session_id
    &&& r.timestamp_ms == m.timestamp_ms
    &&& r.delivered_immediately
}

/// One step of the flow: from `old` the reply leads to `new`, which asks for `action`.
pub open spec fn step(
    old: SendMessageFlow,
    reply: SendMessageReply,
    new: SendMessageFlow,
    action: SendMessageAction,
) -> bool {
    &&& new.command() == old.command()
    &&& match (old.stage(), reply) {
        (SendMessageStage::Moderating, SendMessageReply::Moderation(Err(e))) => {
            &&& new.stage() is Finished
            &&& action == SendMessageAction::Finish { result: Err(e) }
        },
        (
            SendMessageStage::Moderating,
            SendMessageReply::Moderation(Ok(ModerationResult::Blocked { category, reason })),
        ) => {
            &&& new.stage() is Finished
            &&& action matches SendMessageAction::Finish {
                result: Err(DomainError::InvalidMessage(t)),
            }
            &&& t@ == blocked_text(category@, reason@)
        },
        (SendMessageStage::Moderating, SendMessageReply::Moderation(Ok(_))) => {
            ||| {
                &&& new.stage() matches SendMessageStage::Encrypting { message }
                &&& is_outgoing_message(old.command(), message)
                &&& is_message_id(message.id@)
                &&& action matches SendMessageAction::Encrypt { session_id, plaintext }
                &&& session_id == message.session_id
                &&& plaintext@ == plaintext_of(old.command().content@)
            }
            ||| {
                &&& new.stage() is Finished
                &&& action matches SendMessageAction::Finish {
                    result: Err(DomainError::OperationFailed(t)),
                }
                &&& t@ == "message id generation failed"@
            }
        },
        (SendMessageStage::Encrypting { message }, SendMessageReply::Encryption(Err(e))) => {
            &&& new.stage() is Finished
            &&& action == SendMessageAction::Finish { result: Err(e) }
        },
        (SendMessageStage::Encrypting { message }, SendMessageReply::Encryption(Ok(c))) => {
            &&& new.stage() == SendMessageStage::StoringMessage { message, ciphertext: c }
            &&& action == SendMessageAction::StoreMessage { message }
        },
        (SendMessageStage::StoringMessage { .. }, SendMessageReply::Completion(Err(e))) => {
            &&& new.stage() is Finished
            &&& action == SendMessageAction::Finish { result: Err(e) }
        },
        (
            SendMessageStage::StoringMessage { message, ciphertext },
            SendMessageReply::Completion(Ok(_)),
        ) => {
            &&& new.stage() == SendMessageStage::Transporting { message }
            &&& action == SendMessageAction::Transport {
                recipient: old.command().recipient_id,
                payload: ciphertext,
            }
        },
        (SendMessageStage::Transporting { .. }, SendMessageReply::Completion(Err(e))) => {
            &&& new.stage() is Finished
            &&& action == SendMessageAction::Finish { result: Err(e) }
        },
        (SendMessageStage::Transporting { message }, SendMessageReply::Completion(Ok(_))) => {
            &&& new.stage() == SendMessageStage::StoringEvent { message }
            &&& action == SendMessageAction::StoreEvent {
                event: DomainEvent::MessageQueued { message },
            }
        },
        (SendMessageStage::StoringEvent { .. }, SendMessageReply::Completion(Err(e))) => {
            &&& new.stage() is Finished
            &&& action == SendMessageAction::Finish { result: Err(e) }
        },
        (SendMessageStage::StoringEvent { message }, SendMessageReply::Completion(Ok(_))) => {
            &&& new.stage() is Finished
            &&& action matches SendMessageAction::Finish { result: Ok(r) }
            &&& response_for(message, r)
        },
        _ => false,
    }
}

/// The `MessageQueued` event is asked for only after the transport accepted
/// the payload: a failed transport ends the use case with its error and no
/// event is recorded.
pub proof fn law_event_recorded_after_transport(
    before: SendMessageFlow,
    reply: SendMessageReply,
    after: SendMessageFlow,
    action: SendMessageAction,
)
    requires
        step(before, reply, after, action),
        action is StoreEvent,
    ensures
        before.stage() is Transporting,
        reply matches SendMessageReply::Completion(Ok(_)),
{
}

/// Content that moderation blocks ends the use case with the block reason:
/// it is never encrypted, stored or sent.
pub proof fn law_blocked_content_is_never_sent(
    before: SendMessageFlow,
    category: String,
    reason: String,
    after: SendMessageFlow,
    action: SendMessageAction,
)
    requires
        step(
            before,
            SendMessageReply::Moderation(Ok(ModerationResult::Blocked { category, reason })),
            after,
            action,
        ),
    ensures
        after.stage() is Finished,
        action matches SendMessageAction::Finish { result: Err(DomainError::InvalidMessage(t)) }
            && t@ == blocked_text(category@, reason@),
{
}

/// The decisions of the send-message use case, one port call at a time.
pub struct SendMessageFlow {
    command: SendMessageCommand,
    stage: SendMessageStage,
}

impl SendMessageFlow {
    /// A flow that has not finished holds a sendable command, and the message
    /// it carries is the message built for that command.
    #[verifier::type_invariant]
    spec fn consistent(self) -> bool {
        &&& !(self.stage is Finished) ==> is_sendable(self.command)
        &&& match self.stage {
            SendMessageStage::Encrypting { message } => is_outgoing_message(self.command, message),
            SendMessageStage::StoringMessage { message, .. } => is_outgoing_message(
                self.command,
                message,
            ),
            SendMessageStage::Transporting { message } => is_outgoing_message(self.command, message),
            SendMessageStage::StoringEvent { message } => is_outgoing_message(self.command, message),
            _ => true,
        }
    }

    /// The command being carried out.
    pub closed spec fn command(self) -> SendMessageCommand {
        self.command
    }

    /// Where the flow stands.
    pub closed spec fn stage(self) -> SendMessageStage {
        self.stage
    }

    /// Starts the use case: a blank content or a message to oneself is refused
    /// at once; otherwise the content goes to moderation first.
    pub fn start(command: SendMessageCommand) -> (r: (Self, SendMessageAction))
        ensures
            r.0.command() == command,
            asks_for(r.0.stage(), r.1),
            is_blank(command.content@) ==> {
                &&& r.0.stage() is Finished
                &&& r.1 matches SendMessageAction::Finish {
                    result: Err(DomainError::InvalidMessage(t)),
                }
                &&& t@ == "message content is empty"@
            },
            !is_blank(command.content@) && command.sender_id@ == command.recipient_id@ ==> {
                &&& r.0.stage() is Finished
                &&& r.1 matches SendMessageAction::Finish {
                    result: Err(DomainError::InvalidMessage(t)),
                }
                &&& t@ == "self-messages are not supported"@
            },
            is_sendable(command) ==> {
                &&& r.0.stage() is Moderating
                &&& r.1 matches SendMessageAction::Moderate { content }
                &&& content@ == command.content@
            },
    {
        if str_is_blank(command.content.as_str()) {
            let e = DomainError::InvalidMessage(String::from_str("message content is empty"));
            return (
                SendMessageFlow { command, stage: SendMessageStage::Finished },
                SendMessageAction::Finish { result: Err(e) },
            );
        }
        if command.sender_id == command.recipient_id {
            let e = DomainError::InvalidMessage(String::from_str("self-messages are not supported"));
            return (
                SendMessageFlow { command, stage: SendMessageStage::Finished },
                SendMessageAction::Finish { result: Err(e) },
            );
        }
        let content = command.content.clone();
        (
            SendMessageFlow { command, stage: SendMessageStage::Moderating },
            SendMessageAction::Moderate { content },
        )
    }
}


/// The session identifier under which `sender` writes to `recipient`.
pub fn session_for_pair(sender: &UserId, recipient: &UserId) -> (r: SessionId)
    ensures
        r@ == session_name(sender@, recipient@),
{
    let mut s = String::from_str("session-");
    push_hex(&mut s, sender.0.as_slice());
    s.append("-");
    push_hex(&mut s, recipient.0.as_slice());
    SessionId(s)
}

/// The message identifier made from a draw of 16 random bytes: the bytes in
/// hexadecimal when the draw succeeded, none when it failed.
pub fn message_id_from_draw(drawn: Result<[u8; 16], rand::Error>) -> (r: Option<String>)
    ensures
        match drawn {
            Ok(b) => r matches Some(s) && s@ == hex_encode(b@),
            Err(_) => r is None,
        },
        r matches Some(s) ==> is_message_id(s@),
{
    match drawn {
        Ok(b) => {
            proof {
                vstd::array::array_len_matches_n(&b);
            }
            let s = hex_string(b.as_slice());
            assert(b@.len() == 16 && s@ == hex_encode(b@));
            Some(s)
        },
        Err(_) => None,
    }
}

/// Identifiers made from different draws are different: the identifier
/// determines the bytes it was made from, so no two distinct draws share one.
pub proof fn law_distinct_draws_give_distinct_ids(first: Seq<u8>, second: Seq<u8>)
    requires
        first != second,
    ensures
        hex_encode(first) != hex_encode(second),
{
    if hex_encode(first) == hex_encode(second) {
        lemma_hex_encode_injective(first, second);
    }
}

/// A fresh message identifier: 16 bytes from the operating system's random
/// source in hexadecimal (see [`message_id_from_draw`]), or `None` when the
/// source fails.
fn uuid_placeholder() -> (r: Option<String>)
    ensures
        r matches Some(s) ==> is_message_id(s@),
{
    message_id_from_draw(random_bytes::<16>())
}

impl SendMessageFlow {
    /// Continues after moderation let the content through: builds the message
    /// with the given identifier and time and asks for its encryption.
    pub fn accept_moderation(&mut self, message_id: String, timestamp_ms: u64) -> (action:
        SendMessageAction)
        requires
            old(self).stage() is Moderating,
        ensures
            final(self).command() == old(self).command(),
            final(self).stage() matches SendMessageStage::Encrypting { message } && {
                &&& is_outgoing_message(old(self).command(), message)
                &&& message.id == message_id
                &&& message.timestamp_ms == timestamp_ms
                &&& action matches SendMessageAction::Encrypt { session_id, plaintext } && {
                    &&& session_id == message.session_id
                    &&& plaintext@ == plaintext_of(old(self).command().content@)
                }
            },
    {
        proof {
            use_type_invariant(&*self);
        }
        let session_id = session_for_pair(&self.command.sender_id, &self.command.recipient_id);
        let message = Message {
            id: message_id,
            sender_id: self.command.sender_id,
            recipient_id: self.command.recipient_id,
            session_id: session_id.clone(),
            content: self.command.content.clone(),
            timestamp_ms,
            sequence: 0,
        };
        let plaintext = vstd::slice::slice_to_vec(self.command.content.as_str().as_bytes());
        self.stage = SendMessageStage::Encrypting { message };
        SendMessageAction::Encrypt { session_id, plaintext }
    }

    /// Continues after moderation let the content through, with the outcome of
    /// drawing a message identifier: with an identifier, as
    /// [`SendMessageFlow::accept_moderation`]; without one, the use case ends
    /// with `OperationFailed("message id generation failed")`.
    pub fn accept_drawn_id(&mut self, drawn: Option<String>, timestamp_ms: u64) -> (action:
        SendMessageAction)
        requires
            old(self).stage() is Moderating,
        ensures
            final(self).command() == old(self).command(),
            drawn matches Some(id) ==> {
                &&& final(self).stage() matches SendMessageStage::Encrypting { message } && {
                    &&& is_outgoing_message(old(self).command(), message)
                    &&& message.id == id
                    &&& message.timestamp_ms == timestamp_ms
                    &&& action matches SendMessageAction::Encrypt { session_id, plaintext } && {
                        &&& session_id == message.session_id
                        &&& plaintext@ == plaintext_of(old(self).command().content@)
                    }
                }
            },
            drawn is None ==> {
                &&& final(self).stage() is Finished
                &&& action matches SendMessageAction::Finish {
                    result: Err(DomainError::OperationFailed(t)),
                }
                &&& t@ == "message id generation failed"@
            },
    {
        match drawn {
            Some(id) => self.accept_moderation(id, timestamp_ms),
            None => {
                self.stage = SendMessageStage::Finished;
                SendMessageAction::Finish {
                    result: Err(
                        DomainError::OperationFailed(String::from_str("message id generation failed")),
                    ),
                }
            },
        }
    }

    /// Takes the answer of the port that the last action called and decides
    /// what comes next; any error ends the use case with that error. The
    /// order is moderation, encryption, storing the message, transport and,
    /// once the transport succeeded, recording the event.
    pub fn advance(&mut self, reply: SendMessageReply) -> (action: SendMessageAction)
        requires
            awaits(old(self).stage(), reply),
        ensures
            step(*old(self), reply, *final(self), action),
            asks_for(final(self).stage(), action),
            remaining_calls(final(self).stage()) < remaining_calls(old(self).stage()),
    {
        proof {
            use_type_invariant(&*self);
        }
        let mut stage = SendMessageStage::Finished;
        std::mem::swap(&mut stage, &mut self.stage);
        match stage {
            SendMessageStage::Moderating => {
                let result = match reply {
                    SendMessageReply::Moderation(r) => r,
                    _ => {
                        assert(false);
                        Ok(ModerationResult::Safe)
                    },
                };
                match result {
                    Err(e) => SendMessageAction::Finish { result: Err(e) },
                    Ok(ModerationResult::Blocked { category, reason }) => {
                        let mut t = String::from_str("content blocked (");
                        t.append(category.as_str());
                        t.append("): ");
                        t.append(reason.as_str());
                        SendMessageAction::Finish { result: Err(DomainError::InvalidMessage(t)) }
                    },
                    Ok(_) => {
                        let drawn = uuid_placeholder();
                        let ts = current_timestamp_ms();
                        self.stage = SendMessageStage::Moderating;
                        self.accept_drawn_id(drawn, ts)
                    },
                }
            },
            SendMessageStage::Encrypting { message } => {
                let result = match reply {
                    SendMessageReply::Encryption(r) => r,
                    _ => {
                        assert(false);
                        Ok(Vec::new())
                    },
                };
                match result {
                    Err(e) => SendMessageAction::Finish { result: Err(e) },
                    Ok(c) => {
                        let m = message.clone();
                        self.stage = SendMessageStage::StoringMessage { message, ciphertext: c };
                        SendMessageAction::StoreMessage { message: m }
                    },
                }
            },
            SendMessageStage::StoringMessage { message, ciphertext } => {
                let result = match reply {
                    SendMessageReply::Completion(r) => r,
                    _ => {
                        assert(false);
                        Ok(())
                    },
                };
                match result {
                    Err(e) => SendMessageAction::Finish { result: Err(e) },
                    Ok(_) => {
                        let recipient = self.command.recipient_id;
                        self.stage = SendMessageStage::Transporting { message };
                        SendMessageAction::Transport { recipient, payload: ciphertext }
                    },
                }
            },
            SendMessageStage::Transporting { message } => {
                let result = match reply {
                    SendMessageReply::Completion(r) => r,
                    _ => {
                        assert(false);
                        Ok(())
                    },
                };
                match result {
                    Err(e) => SendMessageAction::Finish { result: Err(e) },
                    Ok(_) => {
                        let m = message.clone();
                        self.stage = SendMessageStage::StoringEvent { message };
                        SendMessageAction::StoreEvent {
                            event: DomainEvent::MessageQueued { message: m },
                        }
                    },
                }
            },
            SendMessageStage::StoringEvent { message } => {
                let result = match reply {
                    SendMessageReply::Completion(r) => r,
                    _ => {
                        assert(false);
                        Ok(())
                    },
                };
                match result {
                    Err(e) => SendMessageAction::Finish { result: Err(e) },
                    Ok(_) => {
                        let r = MessageSentResponse {
                            message_id: message.id,
                            session_id: message.session_id,
                            timestamp_ms: message.timestamp_ms,
                            delivered_immediately: true,
                        };
                        SendMessageAction::Finish { result: Ok(r) }
                    },
                }
            },
            SendMessageStage::Finished => {
                assert(false);
                SendMessageAction::Finish { result: Err(DomainError::OperationFailed(String::new())) }
            },
        }
    }
}


/// Sends a message through the ports: validation, moderation, encryption,
/// storage of the message, transport, then the `MessageQueued` event.
///
/// A refused command is answered at once and no port is called. Otherwise
/// the ports decide the outcome; each call and what follows its answer is
/// stated by [`SendMessageFlow::advance`].
pub fn execute_send_message<C: CryptoPort, T: MessageTransportPort, S: StoragePort, M: ModerationPort>(
    command: SendMessageCommand,
    crypto: &mut C,
    transport: &mut T,
    storage: &mut S,
    moderation: &mut M,
) -> (r: Result<MessageSentResponse, DomainError>)
    ensures
        !is_sendable(command) ==> {
            &&& *final(crypto) == *old(crypto)
            &&& *final(transport) == *old(transport)
            &&& *final(storage) == *old(storage)
            &&& *final(moderation) == *old(moderation)
        },
        is_blank(command.content@) ==> (r matches Err(DomainError::InvalidMessage(t)) && t@
            == "message content is empty"@),
        !is_blank(command.content@) && command.sender_id@ == command.recipient_id@ ==> (r matches Err(
            DomainError::InvalidMessage(t),
        ) && t@ == "self-messages are not supported"@),
        r matches Ok(resp) ==> {
            &&& resp.session_id@ == session_name(command.sender_id@, command.recipient_id@)
            &&& resp.delivered_immediately
            &&& is_message_id(resp.message_id@)
        },
{
    let ghost cmd = command;
    let (mut flow, mut action) = SendMessageFlow::start(command);
    loop
        invariant
            cmd == command,
            flow.command() == cmd,
            asks_for(flow.stage(), action),
            !is_sendable(cmd) ==> {
                &&& *crypto == *old(crypto)
                &&& *transport == *old(transport)
                &&& *storage == *old(storage)
                &&& *moderation == *old(moderation)
                &&& flow.stage() is Finished
            },
            is_blank(cmd.content@) ==> (action matches SendMessageAction::Finish {
                result: Err(DomainError::InvalidMessage(t)),
            } && t@ == "message content is empty"@),
            !is_blank(cmd.content@) && cmd.sender_id@ == cmd.recipient_id@ ==> (action matches SendMessageAction::Finish {
                result: Err(DomainError::InvalidMessage(t)),
            } && t@ == "self-messages are not supported"@),
            action matches SendMessageAction::Finish { result: Ok(resp) } ==> {
                &&& resp.session_id@ == session_name(cmd.sender_id@, cmd.recipient_id@)
                &&& resp.delivered_immediately
                &&& is_message_id(resp.message_id@)
            },
            flow.stage() matches SendMessageStage::Encrypting { message } ==> is_message_id(
                message.id@,
            ),
            flow.stage() matches SendMessageStage::StoringMessage { message, .. } ==> is_message_id(
                message.id@,
            ),
            flow.stage() matches SendMessageStage::Transporting { message } ==> is_message_id(
                message.id@,
            ),
            flow.stage() matches SendMessageStage::StoringEvent { message } ==> is_message_id(
                message.id@,
            ),
            flow.stage() matches SendMessageStage::StoringEvent { message } ==> message.session_id@
                == session_name(cmd.sender_id@, cmd.recipient_id@),
        decreases remaining_calls(flow.stage()),
    {
        proof {
            use_type_invariant(&flow);
        }
        let reply = match action {
            SendMessageAction::Finish { result } => {
                return result;
            },
            SendMessageAction::Moderate { content } => SendMessageReply::Moderation(
                moderation.moderate(content.as_str()),
            ),
            SendMessageAction::Encrypt { session_id, plaintext } => SendMessageReply::Encryption(
                crypto.encrypt_message(&session_id, plaintext.as_slice()),
            ),
            SendMessageAction::StoreMessage { message } => SendMessageReply::Completion(
                storage.store_message(&message),
            ),
            SendMessageAction::StoreEvent { event } => SendMessageReply::Completion(
                storage.store_event(&event),
            ),
            SendMessageAction::Transport { recipient, payload } => SendMessageReply::Completion(
                transport.send(&recipient, payload.as_slice()),
            ),
        };
        action = flow.advance(reply);
    }
}

} // verus!
