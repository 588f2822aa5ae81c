//! Errors of the domain layer.

use crate::domain::entities::{user_id_display, SessionId, UserId};
use vstd::prelude::*;
use vstd::string::StringExecFns;

verus! {

/// The error type of domain operations.
#[derive(Debug)]
pub enum DomainError {
    /// No messaging session exists for the user.
    SessionNotFound(UserId),
    /// A session identifier could not be resolved.
    SessionIdNotFound(SessionId),
    /// The session with the user is not yet established.
    SessionNotEstablished(UserId),
    /// No message has the identifier.
    MessageNotFound(String),
    /// The message is not acceptable.
    InvalidMessage(String),
    /// The application is misconfigured.
    ConfigError(String),
    /// A resource is not available.
    ResourceUnavailable(String),
    /// An operation failed.
    OperationFailed(String),
}

impl DomainError {
    /// The human-readable text of an error.
    pub open spec fn text(&self) -> Seq<char> {
        match self {
            DomainError::SessionNotFound(u) => "session not found for user "@ + user_id_display(u@),
            DomainError::SessionIdNotFound(s) => "session ID not found: "@ + ("SessionId("@ + s@
                + ")"@),
            DomainError::SessionNotEstablished(u) => "session not established with user "@
                + user_id_display(u@),
            DomainError::MessageNotFound(m) => "message not found: "@ + m@,
            DomainError::InvalidMessage(m) => "invalid message: "@ + m@,
            DomainError::ConfigError(m) => "configuration error: "@ + m@,
            DomainError::ResourceUnavailable(m) => "resource unavailable: "@ + m@,
            DomainError::OperationFailed(m) => "operation failed: "@ + m@,
        }
    }

    /// The displayed text of this error.
    pub fn to_string(&self) -> (r: String)
        ensures
            r@ == self.text(),
    {
        match self {
            DomainError::SessionNotFound(u) => {
                let mut s = String::from_str("session not found for user ");
                let d = u.to_string();
                s.append(d.as_str());
                s
            },
            DomainError::SessionIdNotFound(id) => {
                let mut s = String::from_str("session ID not found: ");
                let d = id.to_string();
                s.append(d.as_str());
                s
            },
            DomainError::SessionNotEstablished(u) => {
                let mut s = String::from_str("session not established with user ");
                let d = u.to_string();
                s.append(d.as_str());
                s
            },
            DomainError::MessageNotFound(m) => {
                let mut s = String::from_str("message not found: ");
                s.append(m.as_str());
                s
            },
            DomainError::InvalidMessage(m) => {
                let mut s = String::from_str("invalid message: ");
                s.append(m.as_str());
                s
            },
            DomainError::ConfigError(m) => {
                let mut s = String::from_str("configuration error: ");
                s.append(m.as_str());
                s
            },
            DomainError::ResourceUnavailable(m) => {
                let mut s = String::from_str("resource unavailable: ");
                s.append(m.as_str());
                s
            },
            DomainError::OperationFailed(m) => {
                let mut s = String::from_str("operation failed: ");
                s.append(m.as_str());
                s
            },
        }
    }
}

} // verus!
