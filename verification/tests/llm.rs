use presidium::llm::adapters::StubLlmAdapter;
use presidium::llm::inference::InferenceResult;
use presidium::llm::model::{ModelCapability, ModelInfo, Quantization};
use presidium::llm::ports::ModelManagerPort;

#[test]
fn test_inference_result() {
    let result = InferenceResult {
        text: "Hello!".into(),
        prompt_tokens: 5,
        completion_tokens: 2,
        inference_time_ms: 150,
    };
    assert_eq!(result.prompt_tokens, 5);
}

#[test]
fn test_quantization_display() {
    assert_eq!(Quantization::Q4.to_string(), "Q4_K_M");
    assert_eq!(Quantization::Fp16.to_string(), "F16");
}

#[test]
fn quantization_names() {
    assert_eq!(Quantization::Q5.as_str(), "Q5_K_M");
    assert_eq!(Quantization::Q8.as_str(), "Q8_0");
}

#[test]
fn test_model_info_creation() {
    let info = ModelInfo {
        name: "gemma-2b-it".into(),
        version: "1.0".into(),
        context_size: 4096,
        quantization: Quantization::Q4,
        file_size_bytes: 1_500_000_000,
        capabilities: vec![ModelCapability::TextGeneration, ModelCapability::Moderation],
    };
    assert_eq!(info.context_size, 4096);
    assert_eq!(info.capabilities.len(), 2);
}

#[test]
fn test_stub_llm_lifecycle() {
    let mut adapter = StubLlmAdapter::new();
    let current = adapter.current_model().expect("current");
    assert!(current.is_none());
    let info = adapter.load_model("/models/stub.gguf").expect("load");
    assert_eq!(info.name, "stub-model-2b");
    let current = adapter.current_model().expect("current");
    assert!(current.is_some());
    let result = adapter.generate("Hello").expect("generate");
    assert!(!result.text.is_empty());
    adapter.unload_model().expect("unload");
    let current = adapter.current_model().expect("current");
    assert!(current.is_none());
}

#[test]
fn stub_generation_is_exact() {
    let adapter = StubLlmAdapter::new();
    let r = adapter.generate("  two\twords\n").unwrap();
    assert_eq!(r.text, "[stub response to:   two\twords\n]");
    assert_eq!(r.prompt_tokens, 2);
    assert_eq!(r.completion_tokens, 10);
    assert_eq!(r.inference_time_ms, 5);
    assert_eq!(adapter.generate("").unwrap().prompt_tokens, 0);
    assert_eq!(adapter.generate("a\u{3000}b\u{a0}c d").unwrap().prompt_tokens, 4);
    assert!(adapter.cancel().is_ok());
}

#[test]
fn stub_model_description() {
    let mut adapter = StubLlmAdapter::new();
    let info = adapter.load_model("x").unwrap();
    assert_eq!(info.version, "0.1.0");
    assert_eq!(info.context_size, 2048);
    assert_eq!(info.quantization, Quantization::Q4);
    assert_eq!(info.file_size_bytes, 1_200_000_000);
    assert_eq!(info.capabilities, vec![ModelCapability::TextGeneration, ModelCapability::Moderation]);
}

#[test]
fn test_llm_port_traits_are_object_safe() {
    fn _use(_: &dyn ModelManagerPort) {}
}
