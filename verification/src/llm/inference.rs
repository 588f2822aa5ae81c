//! Results of inference.

use vstd::prelude::*;

verus! {

/// The result of generating text.
#[derive(Debug, Clone)]
pub struct InferenceResult {
    /// The generated text.
    pub text: String,
    /// Tokens of the prompt.
    pub prompt_tokens: u32,
    /// Tokens generated.
    pub completion_tokens: u32,
    /// Inference time in milliseconds.
    pub inference_time_ms: u64,
}

} // verus!
