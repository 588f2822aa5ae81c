//! Language model port of the pipeline.

use crate::text::concat;
use vstd::prelude::*;
use vstd::string::StringExecFns;

verus! {

/// Failures of the language model.
#[derive(Debug)]
pub enum LLMError {
    /// Loading the model failed.
    ModelLoading(String),
    /// Inference failed.
    Inference(String),
    /// No model is loaded.
    NotLoaded,
}

impl LLMError {
    /// The displayed text of an error.
    pub open spec fn text(&self) -> Seq<char> {
        match self {
            LLMError::ModelLoading(m) => "Model loading failed: "@ + m@,
            LLMError::Inference(m) => "Inference failed: "@ + m@,
            LLMError::NotLoaded => "Model not loaded"@,
        }
    }

    /// The displayed text of this error.
    pub fn to_string(&self) -> (r: String)
        ensures
            r@ == self.text(),
    {
        match self {
            LLMError::ModelLoading(m) => concat("Model loading failed: ", m.as_str()),
            LLMError::Inference(m) => concat("Inference failed: ", m.as_str()),
            LLMError::NotLoaded => String::from_str("Model not loaded"),
        }
    }
}

/// Loading of and inference with an on-device model.
pub trait LLMPort {
    /// Loads a model with a quantization level.
    fn load_model(&mut self, model_path: &str, quant: u32) -> Result<(), LLMError>;

    /// Generates at most `max_tokens` tokens for a prompt.
    fn infer(&mut self, prompt: &str, max_tokens: usize) -> Result<String, LLMError>;

    /// Whether a model is loaded.
    fn is_loaded(&self) -> bool;
}

/// The candle adapter; loading and inference are not implemented yet.
pub struct CandleLlmAdapter;

impl CandleLlmAdapter {
    /// Creates the adapter.
    pub fn new() -> (r: Self) {
        CandleLlmAdapter
    }
}

impl Default for CandleLlmAdapter {
    fn default() -> (r: Self) {
        CandleLlmAdapter
    }
}


/// The placeholder loads no model: loading and inference fail, saying they
/// are not implemented, and no model is ever loaded.
impl LLMPort for CandleLlmAdapter {
    fn load_model(&mut self, model_path: &str, quant: u32) -> (r: Result<(), LLMError>)
        ensures
            r matches Err(LLMError::ModelLoading(t)) && t@ == "not implemented"@,
    {
        Err(LLMError::ModelLoading(String::from_str("not implemented")))
    }

    fn infer(&mut self, prompt: &str, max_tokens: usize) -> (r: Result<String, LLMError>)
        ensures
            r matches Err(LLMError::Inference(t)) && t@ == "not implemented"@,
    {
        Err(LLMError::Inference(String::from_str("not implemented")))
    }

    fn is_loaded(&self) -> (r: bool)
        ensures
            !r,
    {
        false
    }
}

} // verus!
