//! Models and their quantization.

use vstd::prelude::*;
use vstd::string::StringExecFns;

verus! {

/// Quantization level of a GGUF model.
#[derive(Debug, Clone, Copy, PartialEq, Eq, Structural)]
pub enum Quantization {
    /// 4-bit.
    Q4,
    /// 5-bit.
    Q5,
    /// 8-bit.
    Q8,
    /// Full 16-bit precision.
    Fp16,
}

/// The name of each quantization level used in file names.
pub open spec fn quantization_name(q: Quantization) -> Seq<char> {
    match q {
        Quantization::Q4 => "Q4_K_M"@,
        Quantization::Q5 => "Q5_K_M"@,
        Quantization::Q8 => "Q8_0"@,
        Quantization::Fp16 => "F16"@,
    }
}

impl Quantization {
    /// The name of the level used in file names.
    pub fn as_str(&self) -> (r: &'static str)
        ensures
            r@ == quantization_name(*self),
    {
        match self {
            Quantization::Q4 => "Q4_K_M",
            Quantization::Q5 => "Q5_K_M",
            Quantization::Q8 => "Q8_0",
            Quantization::Fp16 => "F16",
        }
    }

    /// The displayed form, which is the name.
    pub fn to_string(&self) -> (r: String)
        ensures
            r@ == quantization_name(*self),
    {
        String::from_str(self.as_str())
    }
}

/// Something a model can do.
#[derive(Debug, Clone, Copy, PartialEq, Eq, Structural)]
pub enum ModelCapability {
    /// Text generation.
    TextGeneration,
    /// Content moderation and classification.
    Moderation,
    /// Embeddings for semantic search.
    Embeddings,
    /// Tool calling.
    ToolUse,
}

/// Metadata of a loaded model.
#[derive(Debug)]
pub struct ModelInfo {
    /// Name of the model.
    pub name: String,
    /// Version or revision.
    pub version: String,
    /// Context window in tokens.
    pub context_size: u32,
    /// Quantization level.
    pub quantization: Quantization,
    /// Approximate file size in bytes.
    pub file_size_bytes: u64,
    /// What the model can do.
    pub capabilities: Vec<ModelCapability>,
}

impl Clone for ModelInfo {
    fn clone(&self) -> (r: Self)
        ensures
            r.name == self.name,
            r.version == self.version,
            r.context_size == self.context_size,
            r.quantization == self.quantization,
            r.file_size_bytes == self.file_size_bytes,
            r.capabilities@ == self.capabilities@,
    {
        ModelInfo {
            name: self.name.clone(),
            version: self.version.clone(),
            context_size: self.context_size,
            quantization: self.quantization,
            file_size_bytes: self.file_size_bytes,
            capabilities: vstd::slice::slice_to_vec(self.capabilities.as_slice()),
        }
    }
}

} // verus!
