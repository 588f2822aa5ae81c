//! Ports of the language model subsystem.

use crate::domain::errors::DomainError;
use crate::llm::model::ModelInfo;
use vstd::prelude::*;

verus! {

/// Loading and management of a model.
pub trait ModelManagerPort {
    /// Loads a GGUF model from a file path.
    fn load_model(&mut self, path: &str) -> Result<ModelInfo, DomainError>;

    /// The currently loaded model, if any.
    fn current_model(&self) -> Result<Option<ModelInfo>, DomainError>;

    /// Unloads the model.
    fn unload_model(&mut self) -> Result<(), DomainError>;
}

} // verus!
