//! Configurations, and what they say about attention.

use oxillama_arch::common::attention::effective_attention_span;
use oxillama_arch::config::ModelConfig;
use oxillama_arch::metadata::{MetadataStore, MetadataValue};

fn minimal_store(arch: &str) -> MetadataStore {
    let mut store = MetadataStore::new();
    store.insert(
        "general.architecture".to_string(),
        MetadataValue::String(arch.to_string()),
    );
    store
}

#[test]
fn test_from_metadata_requires_architecture() {
    let store = MetadataStore::new();
    let result = ModelConfig::from_metadata(&store);
    assert!(result.is_err(), "missing architecture should return error");
}

#[test]
fn test_from_metadata_minimal_succeeds() {
    let store = minimal_store("llama");
    let cfg = ModelConfig::from_metadata(&store).expect("minimal store should succeed");
    assert_eq!(cfg.architecture, "llama");
}

#[test]
fn test_from_metadata_default_model_name() {
    let store = minimal_store("llama");
    let cfg = ModelConfig::from_metadata(&store).expect("should succeed");
    assert_eq!(cfg.model_name, "unknown");
}

#[test]
fn test_from_metadata_custom_name() {
    let mut store = minimal_store("llama");
    store.insert(
        "general.name".to_string(),
        MetadataValue::String("MyModel".to_string()),
    );
    let cfg = ModelConfig::from_metadata(&store).expect("should succeed");
    assert_eq!(cfg.model_name, "MyModel");
}

#[test]
fn test_from_metadata_default_hidden_size() {
    let store = minimal_store("llama");
    let cfg = ModelConfig::from_metadata(&store).expect("should succeed");
    assert_eq!(cfg.hidden_size, 4096);
}

#[test]
fn test_from_metadata_custom_hidden_size() {
    let mut store = minimal_store("llama");
    store.insert(
        "llama.embedding_length".to_string(),
        MetadataValue::Uint32(2048),
    );
    let cfg = ModelConfig::from_metadata(&store).expect("should succeed");
    assert_eq!(cfg.hidden_size, 2048);
}

#[test]
fn test_from_metadata_default_intermediate_size_is_4x_hidden() {
    let mut store = minimal_store("llama");
    store.insert(
        "llama.embedding_length".to_string(),
        MetadataValue::Uint32(1024),
    );
    let cfg = ModelConfig::from_metadata(&store).expect("should succeed");
    // No feed_forward_length set → defaults to hidden_size * 4
    assert_eq!(cfg.intermediate_size, 4096);
}

#[test]
fn test_from_metadata_custom_intermediate_size() {
    let mut store = minimal_store("llama");
    store.insert(
        "llama.embedding_length".to_string(),
        MetadataValue::Uint32(4096),
    );
    store.insert(
        "llama.feed_forward_length".to_string(),
        MetadataValue::Uint32(11008),
    );
    let cfg = ModelConfig::from_metadata(&store).expect("should succeed");
    assert_eq!(cfg.intermediate_size, 11008);
}

#[test]
fn test_from_metadata_default_num_layers() {
    let store = minimal_store("llama");
    let cfg = ModelConfig::from_metadata(&store).expect("should succeed");
    assert_eq!(cfg.num_layers, 32);
}

#[test]
fn test_from_metadata_custom_num_layers() {
    let mut store = minimal_store("llama");
    store.insert("llama.block_count".to_string(), MetadataValue::Uint32(16));
    let cfg = ModelConfig::from_metadata(&store).expect("should succeed");
    assert_eq!(cfg.num_layers, 16);
}

#[test]
fn test_from_metadata_default_attention_heads() {
    let store = minimal_store("llama");
    let cfg = ModelConfig::from_metadata(&store).expect("should succeed");
    assert_eq!(cfg.num_attention_heads, 32);
    // num_kv_heads defaults to num_attention_heads when not set
    assert_eq!(cfg.num_kv_heads, 32);
}

#[test]
fn test_from_metadata_gqa_kv_heads() {
    let mut store = minimal_store("llama");
    store.insert(
        "llama.attention.head_count".to_string(),
        MetadataValue::Uint32(32),
    );
    store.insert(
        "llama.attention.head_count_kv".to_string(),
        MetadataValue::Uint32(8),
    );
    let cfg = ModelConfig::from_metadata(&store).expect("should succeed");
    assert_eq!(cfg.num_attention_heads, 32);
    assert_eq!(cfg.num_kv_heads, 8);
}

#[test]
fn test_from_metadata_head_dim_computed() {
    let mut store = minimal_store("llama");
    store.insert(
        "llama.embedding_length".to_string(),
        MetadataValue::Uint32(4096),
    );
    store.insert(
        "llama.attention.head_count".to_string(),
        MetadataValue::Uint32(32),
    );
    let cfg = ModelConfig::from_metadata(&store).expect("should succeed");
    assert_eq!(cfg.head_dim, 128); // 4096 / 32
}

#[test]
fn test_from_metadata_default_vocab_size() {
    let store = minimal_store("llama");
    let cfg = ModelConfig::from_metadata(&store).expect("should succeed");
    assert_eq!(cfg.vocab_size, 32000);
}

#[test]
fn test_from_metadata_custom_vocab_size() {
    let mut store = minimal_store("llama");
    store.insert(
        "llama.vocab_size".to_string(),
        MetadataValue::Uint32(128256),
    );
    let cfg = ModelConfig::from_metadata(&store).expect("should succeed");
    assert_eq!(cfg.vocab_size, 128256);
}

#[test]
fn test_from_metadata_default_context_length() {
    let store = minimal_store("llama");
    let cfg = ModelConfig::from_metadata(&store).expect("should succeed");
    assert_eq!(cfg.max_context_length, 4096);
}

#[test]
fn test_from_metadata_default_rms_norm_eps() {
    let store = minimal_store("llama");
    let cfg = ModelConfig::from_metadata(&store).expect("should succeed");
    assert!(
        (f32::from_bits(cfg.rms_norm_eps) - 1e-5).abs() < 1e-10,
        "default eps should be 1e-5"
    );
}

#[test]
fn test_from_metadata_default_rope_freq_base() {
    let store = minimal_store("llama");
    let cfg = ModelConfig::from_metadata(&store).expect("should succeed");
    assert!(
        (f32::from_bits(cfg.rope_freq_base) - 10000.0).abs() < 1.0,
        "default rope_freq_base should be 10000"
    );
}

#[test]
fn test_from_metadata_logit_scale_default_is_one() {
    let store = minimal_store("llama");
    let cfg = ModelConfig::from_metadata(&store).expect("should succeed");
    assert!(
        (f32::from_bits(cfg.logit_scale) - 1.0).abs() < 1e-7,
        "default logit_scale should be 1.0, got {}",
        f32::from_bits(cfg.logit_scale)
    );
}

#[test]
fn test_from_metadata_custom_logit_scale() {
    let mut store = minimal_store("command-r");
    store.insert(
        "command-r.logit_scale".to_string(),
        MetadataValue::Float32(0.0625f32.to_bits()),
    );
    let cfg = ModelConfig::from_metadata(&store).expect("should succeed");
    assert!(
        (f32::from_bits(cfg.logit_scale) - 0.0625).abs() < 1e-7,
        "custom logit_scale"
    );
}

#[test]
fn test_from_metadata_sliding_window_absent_is_none() {
    let store = minimal_store("mistral");
    let cfg = ModelConfig::from_metadata(&store).expect("should succeed");
    assert!(
        cfg.sliding_window.is_none(),
        "sliding_window should default to None"
    );
}

#[test]
fn test_from_metadata_sliding_window_present() {
    let mut store = minimal_store("mistral");
    store.insert(
        "mistral.attention.sliding_window".to_string(),
        MetadataValue::Uint32(4096),
    );
    let cfg = ModelConfig::from_metadata(&store).expect("should succeed");
    assert_eq!(cfg.sliding_window, Some(4096));
}

#[test]
fn test_from_metadata_activation_defaults_to_silu() {
    let store = minimal_store("llama");
    let cfg = ModelConfig::from_metadata(&store).expect("should succeed");
    assert_eq!(cfg.activation, "silu");
}

#[test]
fn test_from_metadata_quant_type_defaults_to_none() {
    let store = minimal_store("llama");
    let cfg = ModelConfig::from_metadata(&store).expect("should succeed");
    assert!(cfg.quant_type.is_none());
}

#[test]
fn test_from_metadata_bias_defaults_to_false() {
    let store = minimal_store("llama");
    let cfg = ModelConfig::from_metadata(&store).expect("should succeed");
    assert!(!cfg.attention_bias);
    assert!(!cfg.ffn_bias);
}

#[test]
fn test_from_metadata_qwen3_architecture() {
    let store = minimal_store("qwen3");
    let cfg = ModelConfig::from_metadata(&store).expect("should succeed");
    assert_eq!(cfg.architecture, "qwen3");
}

#[test]
fn test_from_metadata_default_num_experts_is_zero() {
    // Dense models have no expert_count metadata → defaults to 0.
    let store = minimal_store("llama");
    let cfg = ModelConfig::from_metadata(&store).expect("should succeed");
    assert_eq!(
        cfg.num_experts, 0,
        "default num_experts should be 0 (dense model)"
    );
    assert_eq!(
        cfg.num_experts_used, 0,
        "default num_experts_used should be 0 (dense model)"
    );
}

#[test]
fn test_from_metadata_custom_num_experts_mixtral() {
    // Mixtral-style MoE: 8 experts, top-2 routing.
    let mut store = minimal_store("llama");
    store.insert("llama.expert_count".to_string(), MetadataValue::Uint32(8));
    store.insert(
        "llama.expert_used_count".to_string(),
        MetadataValue::Uint32(2),
    );
    let cfg = ModelConfig::from_metadata(&store).expect("should succeed");
    assert_eq!(cfg.num_experts, 8, "num_experts should be 8 for Mixtral");
    assert_eq!(
        cfg.num_experts_used, 2,
        "num_experts_used should be 2 (top-2)"
    );
}

#[test]
fn test_global_attention() {
    let config = ModelConfig {
        swa_window: None,
        ..ModelConfig::default()
    };
    assert_eq!(effective_attention_span(&config, 0), u32::MAX);
    assert_eq!(effective_attention_span(&config, 5), u32::MAX);
}

#[test]
fn test_mistral_swa_all_layers() {
    let config = ModelConfig {
        swa_window: Some(4096),
        swa_interleaved: false,
        ..ModelConfig::default()
    };
    assert_eq!(effective_attention_span(&config, 0), 4096);
    assert_eq!(effective_attention_span(&config, 3), 4096);
}

#[test]
fn test_gemma_interleaved_swa() {
    let config = ModelConfig {
        swa_window: Some(4096),
        swa_interleaved: true,
        ..ModelConfig::default()
    };
    // Layer 0 is global (interleaved, even index)
    assert_eq!(effective_attention_span(&config, 0), u32::MAX);
    // Layer 1 is sliding window
    assert_eq!(effective_attention_span(&config, 1), 4096);
    // Layer 2 is global again
    assert_eq!(effective_attention_span(&config, 2), u32::MAX);
}

#[test]
fn test_mistral_swa_from_metadata() {
    let mut store = MetadataStore::new();
    store.insert(
        "general.architecture".to_string(),
        MetadataValue::String("mistral".to_string()),
    );
    store.insert(
        "mistral.attention.sliding_window".to_string(),
        MetadataValue::Uint32(4096),
    );
    let cfg = ModelConfig::from_metadata(&store).expect("should succeed");
    assert_eq!(cfg.swa_window, Some(4096));
    assert!(!cfg.swa_interleaved, "mistral is not interleaved");
}

#[test]
fn test_gemma_swa_interleaved_from_metadata() {
    let mut store = MetadataStore::new();
    store.insert(
        "general.architecture".to_string(),
        MetadataValue::String("gemma".to_string()),
    );
    store.insert(
        "gemma.attention.sliding_window".to_string(),
        MetadataValue::Uint32(2048),
    );
    let cfg = ModelConfig::from_metadata(&store).expect("should succeed");
    assert_eq!(cfg.swa_window, Some(2048));
    assert!(cfg.swa_interleaved, "gemma should be interleaved");
}
