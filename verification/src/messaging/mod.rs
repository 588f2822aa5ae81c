//! Messaging: commands, responses and the send-message use case.

pub mod commands;
pub mod dtos;
pub mod send_message;
