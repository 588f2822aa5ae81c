//! Moderation port of the pipeline: verdicts on content and sealed evidence.

use crate::domain::entities::UserId;
use crate::text::concat;
use vstd::prelude::*;
use vstd::string::StringExecFns;

verus! {

/// The verdict of moderation about a text.
#[derive(Debug, Clone)]
pub enum ContentVerdict {
    /// The text may be sent.
    Safe,
    /// The text must not be sent, for the reason given.
    Unsafe(String),
    /// The text needs a human review.
    NeedsReview,
}

/// Failures of moderation.
#[derive(Debug)]
pub enum ModerationError {
    /// The check itself failed.
    CheckFailed(String),
    /// Sealing the evidence failed.
    SarcophagusFailed(String),
}

impl ModerationError {
    /// The displayed text of an error.
    pub open spec fn text(&self) -> Seq<char> {
        match self {
            ModerationError::CheckFailed(m) => "Moderation check failed: "@ + m@,
            ModerationError::SarcophagusFailed(m) => "Sarcophagus creation failed: "@ + m@,
        }
    }

    /// The displayed text of this error.
    pub fn to_string(&self) -> (r: String)
        ensures
            r@ == self.text(),
    {
        match self {
            ModerationError::CheckFailed(m) => concat("Moderation check failed: ", m.as_str()),
            ModerationError::SarcophagusFailed(m) => concat("Sarcophagus creation failed: ", m.as_str()),
        }
    }
}

/// Local content moderation.
pub trait ModerationPort {
    /// Checks a plaintext written by a sender.
    fn check_message(&mut self, sender: &UserId, plaintext: &str) -> Result<
        ContentVerdict,
        ModerationError,
    >;

    /// Seals the evidence of a violation into an encrypted package.
    fn create_sarcophagus(&mut self, offender: &UserId, evidence: &str, reason: &str) -> Result<
        Vec<u8>,
        ModerationError,
    >;
}

/// The on-device moderation adapter; its checks are not implemented yet.
pub struct LocalModerationAdapter;

impl LocalModerationAdapter {
    /// Creates the adapter.
    pub fn new() -> (r: Self) {
        LocalModerationAdapter
    }
}

impl Default for LocalModerationAdapter {
    fn default() -> (r: Self) {
        LocalModerationAdapter
    }
}


/// The placeholder answers every request with the failure of that request,
/// saying it is not implemented.
impl ModerationPort for LocalModerationAdapter {
    fn check_message(&mut self, sender: &UserId, plaintext: &str) -> (r: Result<ContentVerdict, ModerationError>)
        ensures
            r matches Err(ModerationError::CheckFailed(t)) && t@ == "not implemented"@,
    {
        Err(ModerationError::CheckFailed(String::from_str("not implemented")))
    }

    fn create_sarcophagus(&mut self, offender: &UserId, evidence: &str, reason: &str) -> (r: Result<Vec<u8>, ModerationError>)
        ensures
            r matches Err(ModerationError::SarcophagusFailed(t)) && t@ == "not implemented"@,
    {
        Err(ModerationError::SarcophagusFailed(String::from_str("not implemented")))
    }
}

} // verus!
