//! The send-message interactor of the pipeline.
//!
//! Sending checks the plaintext with moderation (an unsafe verdict seals the
//! evidence and rejects the message), establishes a session with the
//! recipient's device, encrypts, saves the outgoing message and sends the
//! ciphertext to the device. The first failure ends it with its error.
//!
//! [`OutgoingMessageFlow`] makes the decisions one port call at a time;
//! [`SendMessageInteractor`] runs it against its ports.

use crate::bytes::{zero_bytes, zeros};
use crate::text::concat;
use crate::domain::entities::{SessionId, UserId};
use crate::pipeline::e2ee::{CryptoError, E2EECryptoPort};
use crate::pipeline::message_store::{MessageStoragePort, StorageError, StoredMessage};
use crate::pipeline::moderation::{ContentVerdict, ModerationError, ModerationPort};
use crate::pipeline::network::{NetworkError, P2PPort};
use crate::pipeline::value_objects::{
    is_message_id_text,
    DeviceId,
    MessageId,
    PreKeyBundle,
    Timestamp,
};
use vstd::prelude::*;
use vstd::string::StringExecFns;

verus! {

/// What is to be sent.
#[derive(Debug)]
pub struct SendMessageInput {
    /// The sender.
    pub sender: UserId,
    /// The sender's device.
    pub sender_device: DeviceId,
    /// The recipient.
    pub recipient: UserId,
    /// The recipient's device.
    pub recipient_device: DeviceId,
    /// The plaintext.
    pub plaintext: String,
}

/// The answer to a message that was sent.
#[derive(Debug)]
pub struct SendMessageOutput {
    /// Identifier of the message.
    pub message_id: MessageId,
    /// When it was stored.
    pub timestamp: Timestamp,
}

/// Why a message was not sent.
#[derive(Debug)]
pub enum SendMessageError {
    /// Moderation failed.
    Moderation(ModerationError),
    /// Encryption failed.
    Crypto(CryptoError),
    /// The network failed.
    Network(NetworkError),
    /// Storage failed.
    Storage(StorageError),
    /// The message was refused.
    Rejected(String),
}

impl SendMessageError {
    /// The displayed text of an error.
    pub open spec fn text(&self) -> Seq<char> {
        match self {
            SendMessageError::Moderation(e) => "Moderation failed: "@ + e.text(),
            SendMessageError::Crypto(e) => "Crypto error: "@ + e.text(),
            SendMessageError::Network(e) => "Network error: "@ + e.text(),
            SendMessageError::Storage(e) => "Storage error: "@ + e.text(),
            SendMessageError::Rejected(m) => "Message rejected: "@ + m@,
        }
    }

    /// The displayed text of this error.
    pub fn to_string(&self) -> (r: String)
        ensures
            r@ == self.text(),
    {
        match self {
            SendMessageError::Moderation(e) => concat("Moderation failed: ", e.to_string().as_str()),
            SendMessageError::Crypto(e) => concat("Crypto error: ", e.to_string().as_str()),
            SendMessageError::Network(e) => concat("Network error: ", e.to_string().as_str()),
            SendMessageError::Storage(e) => concat("Storage error: ", e.to_string().as_str()),
            SendMessageError::Rejected(m) => concat("Message rejected: ", m.as_str()),
        }
    }
}

/// Whether `b` is the placeholder bundle used until pre-keys are fetched from
/// the network: all-zero keys of 32 bytes, an all-zero signature of 64 bytes,
/// a one-time key, registration 0.
pub open spec fn is_placeholder_bundle(b: PreKeyBundle) -> bool {
    &&& b.identity_key@ == zeros(32)
    &&& b.signed_pre_key@ == zeros(32)
    &&& b.pre_key_signature@ == zeros(64)
    &&& b.one_time_pre_key matches Some(k) && k@ == zeros(32)
    &&& b.registration_id == 0
}

/// The placeholder pre-key bundle of the recipient's device.
pub fn dummy_bundle() -> (r: PreKeyBundle)
    ensures
        is_placeholder_bundle(r),
{
    PreKeyBundle {
        identity_key: zero_bytes(32),
        signed_pre_key: zero_bytes(32),
        pre_key_signature: zero_bytes(64),
        one_time_pre_key: Some(zero_bytes(32)),
        registration_id: 0,
    }
}

/// The reason given when moderation finds content unsafe.
pub open spec fn rejection_text(reason: Seq<char>) -> Seq<char> {
    "Content blocked: "@ + reason
}

/// What the flow asks to be done next.
#[derive(Debug)]
pub enum OutgoingAction {
    /// Check the plaintext with moderation.
    CheckContent {
        /// The sender.
        sender: UserId,
        /// The plaintext.
        plaintext: String,
    },
    /// Seal the evidence of a violation.
    SealEvidence {
        /// The sender.
        offender: UserId,
        /// The plaintext.
        evidence: String,
        /// The reason of the verdict.
        reason: String,
    },
    /// Establish a session with the recipient's device.
    EstablishSession {
        /// The recipient.
        remote_user: UserId,
        /// The recipient's device.
        remote_device: DeviceId,
        /// Its pre-key bundle.
        bundle: PreKeyBundle,
    },
    /// Encrypt the plaintext.
    Encrypt {
        /// The session.
        session_id: SessionId,
        /// The plaintext bytes.
        plaintext: Vec<u8>,
    },
    /// Save the outgoing message.
    SaveOutgoing {
        /// The message.
        message: StoredMessage,
    },
    /// Send the ciphertext to the device.
    Send {
        /// The device.
        target_device: DeviceId,
        /// The ciphertext.
        data: Vec<u8>,
    },
    /// The interactor is done with this result.
    Finish {
        /// The outcome.
        result: Result<SendMessageOutput, SendMessageError>,
    },
}

/// What a port answered to the last action.
#[derive(Debug)]
pub enum OutgoingReply {
    /// The verdict of moderation.
    Verdict(Result<ContentVerdict, ModerationError>),
    /// The sealed evidence.
    Sealed(Result<Vec<u8>, ModerationError>),
    /// The established session.
    Session(Result<SessionId, CryptoError>),
    /// The ciphertext.
    Ciphertext(Result<Vec<u8>, CryptoError>),
    /// The answer of storage.
    Saved(Result<(), StorageError>),
    /// The answer of the network.
    Sent(Result<(), NetworkError>),
}

/// Where a flow stands.
#[derive(Debug)]
pub enum OutgoingStage {
    /// Waiting for the verdict.
    Checking,
    /// Waiting for the evidence to be sealed.
    Sealing {
        /// The reason of the verdict.
        reason: String,
    },
    /// Waiting for the session.
    Establishing,
    /// Waiting for the ciphertext.
    Encrypting,
    /// Waiting for the message to be saved.
    Saving {
        /// Its identifier.
        message_id: MessageId,
        /// Its time.
        timestamp: Timestamp,
        /// Its ciphertext.
        ciphertext: Vec<u8>,
    },
    /// Waiting for the network.
    Sending {
        /// Its identifier.
        message_id: MessageId,
        /// Its time.
        timestamp: Timestamp,
    },
    /// Over.
    Finished,
}

/// Which reply each stage waits for.
pub open spec fn awaits(stage: OutgoingStage, reply: OutgoingReply) -> bool {
    match stage {
        OutgoingStage::Checking => reply is Verdict,
        OutgoingStage::Sealing { .. } => reply is Sealed,
        OutgoingStage::Establishing => reply is Session,
        OutgoingStage::Encrypting => reply is Ciphertext,
        OutgoingStage::Saving { .. } => reply is Saved,
        OutgoingStage::Sending { .. } => reply is Sent,
        OutgoingStage::Finished => false,
    }
}

/// Whether the action is the one a flow at the stage has asked for.
pub open spec fn asks_for(stage: OutgoingStage, action: OutgoingAction) -> bool {
    match stage {
        OutgoingStage::Checking => action is CheckContent,
        OutgoingStage::Sealing { .. } => action is SealEvidence,
        OutgoingStage::Establishing => action is EstablishSession,
        OutgoingStage::Encrypting => action is Encrypt,
        OutgoingStage::Saving { .. } => action is SaveOutgoing,
        OutgoingStage::Sending { .. } => action is Send,
        OutgoingStage::Finished => action is Finish,
    }
}

/// How many port calls a stage is at most away from the end.
pub open spec fn remaining_calls(stage: OutgoingStage) -> nat {
    match stage {
        OutgoingStage::Checking => 5,
        OutgoingStage::Sealing { .. } => 1,
        OutgoingStage::Establishing => 4,
        OutgoingStage::Encrypting => 3,
        OutgoingStage::Saving { .. } => 2,
        OutgoingStage::Sending { .. } => 1,
        OutgoingStage::Finished => 0,
    }
}

/// Whether `m` is the outgoing message saved for `input`: fresh identifier
/// and time, the ciphertext, not yet delivered nor read.
pub open spec fn is_outgoing_record(
    input: SendMessageInput,
    m: StoredMessage,
    id: MessageId,
    ts: Timestamp,
    c: Seq<u8>,
) -> bool {
    &&& m.id == id
    &&& m.sender == input.sender
    &&& m.recipient == input.recipient
    &&& m.ciphertext@ == c
    &&& m.timestamp == ts
    &&& !m.delivered
    &&& !m.read
}

/// One step of the flow: from `old` the reply leads to `new`, which asks for `action`.
pub open spec fn outgoing_step(
    old: OutgoingMessageFlow,
    reply: OutgoingReply,
    new: OutgoingMessageFlow,
    action: OutgoingAction,
) -> bool {
    let input = old.input();
    &&& new.input() == input
    &&& match (old.stage(), reply) {
        (OutgoingStage::Checking, OutgoingReply::Verdict(Err(e))) => {
            &&& new.stage() is Finished
            &&& action == OutgoingAction::Finish { result: Err(SendMessageError::Moderation(e)) }
        },
        (OutgoingStage::Checking, OutgoingReply::Verdict(Ok(ContentVerdict::Unsafe(reason)))) => {
            &&& new.stage() == OutgoingStage::Sealing { reason }
            &&& action matches OutgoingAction::SealEvidence { offender, evidence, reason: r }
            &&& offender == input.sender
            &&& evidence@ == input.plaintext@
            &&& r@ == reason@
        },
        (OutgoingStage::Checking, OutgoingReply::Verdict(Ok(_))) => {
            &&& new.stage() is Establishing
            &&& action matches OutgoingAction::EstablishSession {
                remote_user,
                remote_device,
                bundle,
            }
            &&& remote_user == input.recipient
            &&& remote_device == input.recipient_device
            &&& is_placeholder_bundle(bundle)
        },
        (OutgoingStage::Sealing { .. }, OutgoingReply::Sealed(Err(e))) => {
            &&& new.stage() is Finished
            &&& action == OutgoingAction::Finish { result: Err(SendMessageError::Moderation(e)) }
        },
        (OutgoingStage::Sealing { reason }, OutgoingReply::Sealed(Ok(_))) => {
            &&& new.stage() is Finished
            &&& action matches OutgoingAction::Finish {
                result: Err(SendMessageError::Rejected(t)),
            }
            &&& t@ == rejection_text(reason@)
        },
        (OutgoingStage::Establishing, OutgoingReply::Session(Err(e))) => {
            &&& new.stage() is Finished
            &&& action == OutgoingAction::Finish { result: Err(SendMessageError::Crypto(e)) }
        },
        (OutgoingStage::Establishing, OutgoingReply::Session(Ok(s))) => {
            &&& new.stage() is Encrypting
            &&& action matches OutgoingAction::Encrypt { session_id, plaintext }
            &&& session_id == s
            &&& plaintext@ == vstd::utf8::encode_utf8(input.plaintext@)
        },
        (OutgoingStage::Encrypting, OutgoingReply::Ciphertext(Err(e))) => {
            &&& new.stage() is Finished
            &&& action == OutgoingAction::Finish { result: Err(SendMessageError::Crypto(e)) }
        },
        (OutgoingStage::Encrypting, OutgoingReply::Ciphertext(Ok(c))) => {
            ||| {
                &&& new.stage() matches OutgoingStage::Saving {
                    message_id,
                    timestamp,
                    ciphertext,
                }
                &&& ciphertext == c
                &&& is_message_id_text(message_id.0@)
                &&& action matches OutgoingAction::SaveOutgoing { message }
                &&& is_outgoing_record(input, message, message_id, timestamp, c@)
            }
            ||| {
                &&& new.stage() is Finished
                &&& action matches OutgoingAction::Finish {
                    result: Err(SendMessageError::Storage(StorageError::SaveFailed(t))),
                }
                &&& t@ == "message id generation failed"@
            }
        },
        (OutgoingStage::Saving { .. }, OutgoingReply::Saved(Err(e))) => {
            &&& new.stage() is Finished
            &&& action == OutgoingAction::Finish { result: Err(SendMessageError::Storage(e)) }
        },
        (OutgoingStage::Saving { message_id, timestamp, ciphertext }, OutgoingReply::Saved(Ok(_))) => {
            &&& new.stage() == OutgoingStage::Sending { message_id, timestamp }
            &&& action == OutgoingAction::Send {
                target_device: input.recipient_device,
                data: ciphertext,
            }
        },
        (OutgoingStage::Sending { .. }, OutgoingReply::Sent(Err(e))) => {
            &&& new.stage() is Finished
            &&& action == OutgoingAction::Finish { result: Err(SendMessageError::Network(e)) }
        },
        (OutgoingStage::Sending { message_id, timestamp }, OutgoingReply::Sent(Ok(_))) => {
            &&& new.stage() is Finished
            &&& action == OutgoingAction::Finish {
                result: Ok(SendMessageOutput { message_id, timestamp }),
            }
        },
        _ => false,
    }
}

/// Content that moderation finds unsafe has its evidence sealed and is then
/// rejected with the reason of the verdict; it is never encrypted, saved or
/// sent.
pub proof fn law_unsafe_content_is_sealed_then_rejected(
    start: OutgoingMessageFlow,
    reason: String,
    mid: OutgoingMessageFlow,
    seal: OutgoingAction,
    sealed: Vec<u8>,
    end: OutgoingMessageFlow,
    finish: OutgoingAction,
)
    requires
        start.stage() is Checking,
        outgoing_step(start, OutgoingReply::Verdict(Ok(ContentVerdict::Unsafe(reason))), mid, seal),
        outgoing_step(mid, OutgoingReply::Sealed(Ok(sealed)), end, finish),
    ensures
        seal matches OutgoingAction::SealEvidence { offender, evidence, reason: r } && offender
            == start.input().sender && evidence@ == start.input().plaintext@ && r@ == reason@,
        end.stage() is Finished,
        finish matches OutgoingAction::Finish { result: Err(SendMessageError::Rejected(t)) } && t@
            == rejection_text(reason@),
{
}

/// The decisions of the send-message interactor, one port call at a time.
pub struct OutgoingMessageFlow {
    input: SendMessageInput,
    stage: OutgoingStage,
}

impl OutgoingMessageFlow {
    /// The input being sent.
    pub closed spec fn input(self) -> SendMessageInput {
        self.input
    }

    /// Where the flow stands.
    pub closed spec fn stage(self) -> OutgoingStage {
        self.stage
    }

    /// Starts with the moderation check of the plaintext.
    pub fn start(input: SendMessageInput) -> (r: (Self, OutgoingAction))
        ensures
            r.0.input() == input,
            r.0.stage() is Checking,
            r.1 matches OutgoingAction::CheckContent { sender, plaintext } && sender == input.sender
                && plaintext@ == input.plaintext@,
    {
        let sender = input.sender;
        let plaintext = input.plaintext.clone();
        (
            OutgoingMessageFlow { input, stage: OutgoingStage::Checking },
            OutgoingAction::CheckContent { sender, plaintext },
        )
    }

    /// Continues after encryption with the given identifier and time: asks
    /// for the outgoing message to be saved.
    pub fn accept_ciphertext(
        &mut self,
        ciphertext: Vec<u8>,
        message_id: MessageId,
        timestamp: Timestamp,
    ) -> (action: OutgoingAction)
        requires
            old(self).stage() is Encrypting,
        ensures
            final(self).input() == old(self).input(),
            final(self).stage() == (OutgoingStage::Saving { message_id, timestamp, ciphertext }),
            (action matches OutgoingAction::SaveOutgoing { message } && is_outgoing_record(
                old(self).input(),
                message,
                message_id,
                timestamp,
                ciphertext@,
            )),
    {
        let message = StoredMessage {
            id: message_id.clone(),
            sender: self.input.sender,
            recipient: self.input.recipient,
            ciphertext: vstd::slice::slice_to_vec(ciphertext.as_slice()),
            timestamp,
            delivered: false,
            read: false,
        };
        self.stage = OutgoingStage::Saving { message_id, timestamp, ciphertext };
        OutgoingAction::SaveOutgoing { message }
    }

    /// Continues after encryption with the outcome of drawing a message
    /// identifier: with an identifier, as
    /// [`OutgoingMessageFlow::accept_ciphertext`]; without one, sending ends
    /// with `Storage(SaveFailed("message id generation failed"))`.
    pub fn accept_drawn_id(
        &mut self,
        ciphertext: Vec<u8>,
        drawn: Option<MessageId>,
        timestamp: Timestamp,
    ) -> (action: OutgoingAction)
        requires
            old(self).stage() is Encrypting,
        ensures
            final(self).input() == old(self).input(),
            drawn matches Some(id) ==> {
                &&& final(self).stage() == (OutgoingStage::Saving {
                    message_id: id,
                    timestamp,
                    ciphertext,
                })
                &&& action matches OutgoingAction::SaveOutgoing { message } && is_outgoing_record(
                    old(self).input(),
                    message,
                    id,
                    timestamp,
                    ciphertext@,
                )
            },
            drawn is None ==> {
                &&& final(self).stage() is Finished
                &&& action matches OutgoingAction::Finish {
                    result: Err(SendMessageError::Storage(StorageError::SaveFailed(t))),
                }
                &&& t@ == "message id generation failed"@
            },
    {
        match drawn {
            Some(id) => self.accept_ciphertext(ciphertext, id, timestamp),
            None => {
                self.stage = OutgoingStage::Finished;
                OutgoingAction::Finish {
                    result: Err(
                        SendMessageError::Storage(
                            StorageError::SaveFailed(String::from_str("message id generation failed")),
                        ),
                    ),
                }
            },
        }
    }

    /// Takes the answer of the port that the last action called and decides
    /// what comes next.
    pub fn advance(&mut self, reply: OutgoingReply) -> (action: OutgoingAction)
        requires
            awaits(old(self).stage(), reply),
        ensures
            outgoing_step(*old(self), reply, *final(self), action),
            asks_for(final(self).stage(), action),
            remaining_calls(final(self).stage()) < remaining_calls(old(self).stage()),
    {
        let mut stage = OutgoingStage::Finished;
        std::mem::swap(&mut stage, &mut self.stage);
        match (stage, reply) {
            (OutgoingStage::Checking, OutgoingReply::Verdict(Err(e))) => OutgoingAction::Finish {
                result: Err(SendMessageError::Moderation(e)),
            },
            (OutgoingStage::Checking, OutgoingReply::Verdict(Ok(ContentVerdict::Unsafe(reason)))) => {
                let r = reason.clone();
                self.stage = OutgoingStage::Sealing { reason };
                OutgoingAction::SealEvidence {
                    offender: self.input.sender,
                    evidence: self.input.plaintext.clone(),
                    reason: r,
                }
            },
            (OutgoingStage::Checking, OutgoingReply::Verdict(Ok(_))) => {
                self.stage = OutgoingStage::Establishing;
                OutgoingAction::EstablishSession {
                    remote_user: self.input.recipient,
                    remote_device: self.input.recipient_device,
                    bundle: dummy_bundle(),
                }
            },
            (OutgoingStage::Sealing { .. }, OutgoingReply::Sealed(Err(e))) => OutgoingAction::Finish {
                result: Err(SendMessageError::Moderation(e)),
            },
            (OutgoingStage::Sealing { reason }, OutgoingReply::Sealed(Ok(_))) => {
                let mut t = String::from_str("Content blocked: ");
                t.append(reason.as_str());
                OutgoingAction::Finish { result: Err(SendMessageError::Rejected(t)) }
            },
            (OutgoingStage::Establishing, OutgoingReply::Session(Err(e))) => OutgoingAction::Finish {
                result: Err(SendMessageError::Crypto(e)),
            },
            (OutgoingStage::Establishing, OutgoingReply::Session(Ok(s))) => {
                self.stage = OutgoingStage::Encrypting;
                let plaintext = vstd::slice::slice_to_vec(self.input.plaintext.as_str().as_bytes());
                OutgoingAction::Encrypt { session_id: s, plaintext }
            },
            (OutgoingStage::Encrypting, OutgoingReply::Ciphertext(Err(e))) => OutgoingAction::Finish {
                result: Err(SendMessageError::Crypto(e)),
            },
            (OutgoingStage::Encrypting, OutgoingReply::Ciphertext(Ok(c))) => {
                let drawn = MessageId::generate();
                let ts = Timestamp::now();
                self.stage = OutgoingStage::Encrypting;
                self.accept_drawn_id(c, drawn, ts)
            },
            (OutgoingStage::Saving { .. }, OutgoingReply::Saved(Err(e))) => OutgoingAction::Finish {
                result: Err(SendMessageError::Storage(e)),
            },
            (OutgoingStage::Saving { message_id, timestamp, ciphertext }, OutgoingReply::Saved(Ok(_))) => {
                self.stage = OutgoingStage::Sending { message_id, timestamp };
                OutgoingAction::Send { target_device: self.input.recipient_device, data: ciphertext }
            },
            (OutgoingStage::Sending { .. }, OutgoingReply::Sent(Err(e))) => OutgoingAction::Finish {
                result: Err(SendMessageError::Network(e)),
            },
            (OutgoingStage::Sending { message_id, timestamp }, OutgoingReply::Sent(Ok(_))) => {
                OutgoingAction::Finish { result: Ok(SendMessageOutput { message_id, timestamp }) }
            },
            (_, _) => {
                assert(false);
                OutgoingAction::Finish { result: Err(SendMessageError::Rejected(String::new())) }
            },
        }
    }
}

/// The use case of sending a message.
pub trait SendMessageUseCase {
    /// Sends the message described by the input.
    fn execute(&mut self, input: SendMessageInput) -> Result<SendMessageOutput, SendMessageError>;
}

/// Sends messages through its four ports.
pub struct SendMessageInteractor<C, P, S, M> {
    crypto: C,
    p2p: P,
    storage: S,
    moderation: M,
}

impl<C, P, S, M> SendMessageInteractor<C, P, S, M> {
    /// The encryption port.
    pub closed spec fn crypto(self) -> C {
        self.crypto
    }

    /// The network port.
    pub closed spec fn p2p(self) -> P {
        self.p2p
    }

    /// The storage port.
    pub closed spec fn storage(self) -> S {
        self.storage
    }

    /// The moderation port.
    pub closed spec fn moderation(self) -> M {
        self.moderation
    }

    /// An interactor over the four ports.
    pub fn new(crypto: C, p2p: P, storage: S, moderation: M) -> (r: Self)
        ensures
            r.crypto() == crypto,
            r.p2p() == p2p,
            r.storage() == storage,
            r.moderation() == moderation,
    {
        SendMessageInteractor { crypto, p2p, storage, moderation }
    }
}

impl<C: E2EECryptoPort, P: P2PPort, S: MessageStoragePort, M: ModerationPort> SendMessageUseCase for SendMessageInteractor<C, P, S, M> {
    fn execute(&mut self, input: SendMessageInput) -> (r: Result<SendMessageOutput, SendMessageError>)
        ensures
            r matches Ok(out) ==> is_message_id_text(out.message_id.0@),
            r matches Err(SendMessageError::Rejected(t)) ==> exists|reason: Seq<char>|
                t@ == #[trigger] rejection_text(reason),
    {
        let (mut flow, mut action) = OutgoingMessageFlow::start(input);
        loop
            invariant
                asks_for(flow.stage(), action),
                action matches OutgoingAction::Finish { result: Ok(out) } ==> is_message_id_text(out.message_id.0@),
                action matches OutgoingAction::Finish { result: Err(SendMessageError::Rejected(t)) }
                    ==> exists|reason: Seq<char>| t@ == #[trigger] rejection_text(reason),
                flow.stage() matches OutgoingStage::Saving { message_id, .. } ==> is_message_id_text(message_id.0@),
                flow.stage() matches OutgoingStage::Sending { message_id, .. } ==> is_message_id_text(message_id.0@),
            decreases remaining_calls(flow.stage()),
        {
            let reply = match action {
                OutgoingAction::Finish { result } => {
                    return result;
                },
                OutgoingAction::CheckContent { sender, plaintext } => OutgoingReply::Verdict(
                    self.moderation.check_message(&sender, plaintext.as_str()),
                ),
                OutgoingAction::SealEvidence { offender, evidence, reason } => OutgoingReply::Sealed(
                    self.moderation.create_sarcophagus(&offender, evidence.as_str(), reason.as_str()),
                ),
                OutgoingAction::EstablishSession { remote_user, remote_device, bundle } =>
                    OutgoingReply::Session(
                    self.crypto.establish_session(&remote_user, &remote_device, &bundle),
                ),
                OutgoingAction::Encrypt { session_id, plaintext } => OutgoingReply::Ciphertext(
                    self.crypto.encrypt_message(&session_id, plaintext.as_slice()),
                ),
                OutgoingAction::SaveOutgoing { message } => OutgoingReply::Saved(
                    self.storage.save_outgoing_message(message),
                ),
                OutgoingAction::Send { target_device, data } => OutgoingReply::Sent(
                    self.p2p.send_p2p(&target_device, data),
                ),
            };
            action = flow.advance(reply);
        }
    }
}

} // verus!
