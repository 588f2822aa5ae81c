//! Domain layer: entities, value objects, events and errors of the messenger.

pub mod entities;
pub mod errors;
pub mod events;
pub mod value_objects;
