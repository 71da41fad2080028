use candle_vllm::template_registry::{
    family_of_lowercase, get_expected_markers, get_fallback_template, template_of_family,
    ArchFamily, CHATML_TEMPLATE, GEMMA_TEMPLATE, GLM_TEMPLATE, LLAMA3_TEMPLATE,
    MISTRAL_TEMPLATE, PHI_TEMPLATE,
};

#[test]
fn test_qwen_family_lookup() {
    assert!(get_fallback_template("qwen35").is_some());
    assert!(get_fallback_template("qwen36").is_some());
    assert!(get_fallback_template("Qwen3_5ForCausalLM").is_some());
    assert!(get_fallback_template("Qwen3_6ForCausalLM").is_some());
    assert!(get_fallback_template("qwen2").is_some());
    assert!(get_fallback_template("qwen3").is_some());
}

#[test]
fn test_llama_family_lookup() {
    assert!(get_fallback_template("llama").is_some());
    assert!(get_fallback_template("llama3").is_some());
}

#[test]
fn test_mistral_family_lookup() {
    assert!(get_fallback_template("mistral").is_some());
}

#[test]
fn test_unknown_family() {
    assert!(get_fallback_template("unknown_model_xyz").is_none());
}

#[test]
fn test_expected_markers_chatml() {
    let markers = get_expected_markers("qwen35");
    assert!(markers.contains(&"<|im_start|>"));
    assert!(markers.contains(&"<|im_end|>"));
}

#[test]
fn test_expected_markers_llama() {
    let markers = get_expected_markers("llama3");
    assert!(markers.contains(&"<|start_header_id|>"));
}

#[test]
fn test_chatml_template_has_markers() {
    assert!(CHATML_TEMPLATE.contains("<|im_start|>"));
    assert!(CHATML_TEMPLATE.contains("<|im_end|>"));
    assert!(CHATML_TEMPLATE.contains("enable_thinking"));
}

#[test]
fn fallback_template_is_the_family_template() {
    assert_eq!(get_fallback_template("Qwen3_5ForCausalLM"), Some(CHATML_TEMPLATE));
    assert_eq!(get_fallback_template("LLAMA"), Some(LLAMA3_TEMPLATE));
    assert_eq!(get_fallback_template("Ministral-8B"), Some(MISTRAL_TEMPLATE));
    assert_eq!(get_fallback_template("Phi3"), Some(PHI_TEMPLATE));
    assert_eq!(get_fallback_template("gemma2"), Some(GEMMA_TEMPLATE));
    assert_eq!(get_fallback_template("ChatGLM4"), Some(GLM_TEMPLATE));
}

#[test]
fn chatml_rule_wins_over_later_rules() {
    // "deepseek-llama3" mentions both families; the first rule in order applies.
    assert_eq!(get_fallback_template("deepseek-llama3"), Some(CHATML_TEMPLATE));
}

#[test]
fn plain_llama_must_match_exactly() {
    // "llama2" neither contains "llama3" nor equals "llama".
    assert!(get_fallback_template("llama2").is_none());
    assert_eq!(get_fallback_template("Llama"), Some(LLAMA3_TEMPLATE));
}

#[test]
fn lowercasing_is_applied_before_matching() {
    // The lowercase-only rule below would miss upper-case names without lowercasing.
    assert_eq!(family_of_lowercase("QWEN"), None);
    assert_eq!(get_fallback_template("QWEN"), Some(CHATML_TEMPLATE));
    assert_eq!(get_expected_markers("MISTRAL"), &["[INST]", "[/INST]"]);
}

#[test]
fn markers_of_every_family() {
    assert_eq!(get_expected_markers("qwen3"), &["<|im_start|>", "<|im_end|>"]);
    assert_eq!(get_expected_markers("llama"), &["<|start_header_id|>", "<|end_header_id|>"]);
    assert_eq!(get_expected_markers("mistral"), &["[INST]", "[/INST]"]);
    assert_eq!(get_expected_markers("phi4"), &["<|user|>", "<|end|>"]);
    assert_eq!(get_expected_markers("gemma3"), &["<start_of_turn>", "<end_of_turn>"]);
    assert_eq!(get_expected_markers("glm4"), &["<|user|>", "<|assistant|>"]);
    assert!(get_expected_markers("unknown_model_xyz").is_empty());
}

#[test]
fn family_lookup_on_lowercase_names() {
    assert_eq!(family_of_lowercase("yi-34b"), Some(ArchFamily::ChatMl));
    assert_eq!(family_of_lowercase("chatml"), Some(ArchFamily::ChatMl));
    assert_eq!(family_of_lowercase("gpt2"), None);
    assert_eq!(template_of_family(ArchFamily::Gemma), GEMMA_TEMPLATE);
}
