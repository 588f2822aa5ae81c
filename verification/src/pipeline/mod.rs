//! The layered messaging pipeline: ports for end-to-end encryption, P2P
//! transport, message storage, language models and moderation, with the
//! send-message interactor that orchestrates them.

pub mod di;
pub mod e2ee;
pub mod entities;
pub mod events;
pub mod language_model;
pub mod message_store;
pub mod moderation;
pub mod network;
pub mod send_message;
pub mod value_objects;
