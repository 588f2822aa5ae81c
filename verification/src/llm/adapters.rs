//! A stub language model adapter that simulates a loaded model.

use crate::domain::errors::DomainError;
use crate::llm::inference::InferenceResult;
use crate::llm::model::{ModelCapability, ModelInfo, Quantization};
use crate::llm::ports::ModelManagerPort;
use crate::text::{count_words, word_count};
use vstd::prelude::*;
use vstd::string::StringExecFns;

verus! {

/// Whether `m` describes the simulated model.
pub open spec fn is_stub_model(m: ModelInfo) -> bool {
    &&& m.name@ == "stub-model-2b"@
    &&& m.version@ == "0.1.0"@
    &&& m.context_size == 2048
    &&& m.quantization == Quantization::Q4
    &&& m.file_size_bytes == 1_200_000_000
    &&& m.capabilities@ == seq![ModelCapability::TextGeneration, ModelCapability::Moderation]
}

/// The text the stub answers a prompt with.
pub open spec fn stub_reply(prompt: Seq<char>) -> Seq<char> {
    "[stub response to: "@ + prompt + "]"@
}

/// What asking for the current model answers when a model is or is not
/// loaded: the stub model, or none.
pub open spec fn reports_model(loaded: bool, r: Result<Option<ModelInfo>, DomainError>) -> bool {
    &&& r matches Ok(m) && (loaded <==> m is Some)
    &&& r matches Ok(Some(m)) ==> is_stub_model(m)
}

/// Once a model is loaded the current model is the stub model; once it is
/// unloaded there is none.
pub proof fn law_model_lifecycle(
    after_load: Result<Option<ModelInfo>, DomainError>,
    after_unload: Result<Option<ModelInfo>, DomainError>,
)
    requires
        reports_model(true, after_load),
        reports_model(false, after_unload),
    ensures
        after_load matches Ok(Some(m)) && is_stub_model(m),
        after_unload matches Ok(None),
{
}

/// A language model adapter that simulates loading and inference.
pub struct StubLlmAdapter {
    loaded: bool,
}

/// The description of the simulated model.
fn stub_model_info() -> (r: ModelInfo)
    ensures
        is_stub_model(r),
{
    let mut capabilities: Vec<ModelCapability> = Vec::new();
    capabilities.push(ModelCapability::TextGeneration);
    capabilities.push(ModelCapability::Moderation);
    assert(capabilities@ =~= seq![ModelCapability::TextGeneration, ModelCapability::Moderation]);
    ModelInfo {
        name: String::from_str("stub-model-2b"),
        version: String::from_str("0.1.0"),
        context_size: 2048,
        quantization: Quantization::Q4,
        file_size_bytes: 1_200_000_000,
        capabilities,
    }
}

impl StubLlmAdapter {
    /// Whether a model is loaded.
    pub closed spec fn is_loaded(self) -> bool {
        self.loaded
    }

    /// An adapter with no model loaded.
    pub fn new() -> (r: Self)
        ensures
            !r.is_loaded(),
    {
        StubLlmAdapter { loaded: false }
    }

    /// Generates the stub answer to a prompt; the prompt counts one token per
    /// whitespace-separated word.
    pub fn generate(&self, prompt: &str) -> (r: Result<InferenceResult, DomainError>)
        ensures
            r matches Ok(res) && {
                &&& res.text@ == stub_reply(prompt@)
                &&& res.prompt_tokens == word_count(prompt@) as u32
                &&& res.completion_tokens == 10
                &&& res.inference_time_ms == 5
            },
    {
        let mut text = String::from_str("[stub response to: ");
        text.append(prompt);
        text.append("]");
        let n = count_words(prompt);
        Ok(
            InferenceResult {
                text,
                prompt_tokens: n as u32,
                completion_tokens: 10,
                inference_time_ms: 5,
            },
        )
    }

    /// Cancels inference; there is never any in progress.
    pub fn cancel(&self) -> (r: Result<(), DomainError>)
        ensures
            r is Ok,
    {
        Ok(())
    }
}

impl Default for StubLlmAdapter {
    fn default() -> (r: Self)
        ensures
            !r.is_loaded(),
    {
        Self::new()
    }
}

impl ModelManagerPort for StubLlmAdapter {
    fn load_model(&mut self, path: &str) -> (r: Result<ModelInfo, DomainError>)
        ensures
            r matches Ok(m) && is_stub_model(m),
            final(self).is_loaded(),
    {
        self.loaded = true;
        Ok(stub_model_info())
    }

    fn current_model(&self) -> (r: Result<Option<ModelInfo>, DomainError>)
        ensures
            reports_model(self.is_loaded(), r),
    {
        if self.loaded {
            Ok(Some(stub_model_info()))
        } else {
            Ok(None)
        }
    }

    fn unload_model(&mut self) -> (r: Result<(), DomainError>)
        ensures
            r is Ok,
            !final(self).is_loaded(),
    {
        self.loaded = false;
        Ok(())
    }
}

} // verus!
