//! On-device language model subsystem: models, inference results and a stub adapter.

pub mod adapters;
pub mod inference;
pub mod model;
pub mod ports;
