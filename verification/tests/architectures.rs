//! Families of models: identifiers, tensors, and what they refuse to build.

use oxillama_arch::command_r::CommandRArchitecture;
use oxillama_arch::config::ModelConfig;
use oxillama_arch::error::ArchError;
use oxillama_arch::falcon::{falcon_tensor_name_patterns, FalconArchitecture, FalconConfig};
use oxillama_arch::gguf::TensorStore;
use oxillama_arch::gpt_neox::GptNeoxArchitecture;
use oxillama_arch::internlm3::InternLm3Architecture;
use oxillama_arch::llava::LlavaArchitecture;
use oxillama_arch::metadata::{MetadataStore, MetadataValue};
use oxillama_arch::minicpm::MiniCpmArchitecture;
use oxillama_arch::mixtral::MixtralArchitecture;
use oxillama_arch::olmo2::{olmo2_tensor_name_patterns, Olmo2Architecture};
use oxillama_arch::registry::ArchitectureRegistry;
use oxillama_arch::traits::ModelArchitecture;

fn make_falcon_metadata(arch: &str) -> MetadataStore {
    let mut store = MetadataStore::new();
    store.insert(
        "general.architecture".to_string(),
        MetadataValue::String(arch.to_string()),
    );
    store.insert(
        "falcon.embedding_length".to_string(),
        MetadataValue::Uint32(256),
    );
    store.insert("falcon.block_count".to_string(), MetadataValue::Uint32(4));
    store.insert(
        "falcon.attention.head_count".to_string(),
        MetadataValue::Uint32(4),
    );
    store.insert(
        "falcon.attention.head_count_kv".to_string(),
        MetadataValue::Uint32(1),
    );
    store.insert(
        "falcon.feed_forward_length".to_string(),
        MetadataValue::Uint32(512),
    );
    store
}

fn falcon_config() -> ModelConfig {
    let store = make_falcon_metadata("falcon");
    ModelConfig::from_metadata(&store).expect("falcon config")
}

fn internlm3_config() -> ModelConfig {
    let mut store = MetadataStore::new();
    store.insert(
        "general.architecture".to_string(),
        MetadataValue::String("internlm3".to_string()),
    );
    ModelConfig::from_metadata(&store).expect("minimal internlm3 config should parse")
}

fn minicpm_metadata() -> MetadataStore {
    let mut store = MetadataStore::new();
    store.insert(
        "general.architecture".to_string(),
        MetadataValue::String("minicpm".to_string()),
    );
    store.insert(
        "minicpm.embedding_length".to_string(),
        MetadataValue::Uint32(256),
    );
    store.insert("minicpm.block_count".to_string(), MetadataValue::Uint32(4));
    store.insert(
        "minicpm.attention.head_count".to_string(),
        MetadataValue::Uint32(4),
    );
    store.insert(
        "minicpm.attention.head_count_kv".to_string(),
        MetadataValue::Uint32(4),
    );
    store.insert(
        "minicpm.feed_forward_length".to_string(),
        MetadataValue::Uint32(512),
    );
    store
}

fn minicpm_config() -> ModelConfig {
    ModelConfig::from_metadata(&minicpm_metadata()).expect("config")
}

fn olmo2_metadata() -> MetadataStore {
    let mut store = MetadataStore::new();
    store.insert(
        "general.architecture".to_string(),
        MetadataValue::String("olmo2".to_string()),
    );
    store.insert(
        "olmo2.embedding_length".to_string(),
        MetadataValue::Uint32(256),
    );
    store.insert("olmo2.block_count".to_string(), MetadataValue::Uint32(4));
    store.insert(
        "olmo2.attention.head_count".to_string(),
        MetadataValue::Uint32(4),
    );
    store.insert(
        "olmo2.attention.head_count_kv".to_string(),
        MetadataValue::Uint32(2),
    );
    store.insert(
        "olmo2.feed_forward_length".to_string(),
        MetadataValue::Uint32(512),
    );
    store
}

fn olmo2_config() -> ModelConfig {
    ModelConfig::from_metadata(&olmo2_metadata()).expect("config")
}

fn command_r_config() -> ModelConfig {
    let mut store = MetadataStore::new();
    store.insert(
        "general.architecture".to_string(),
        MetadataValue::String("command-r".to_string()),
    );
    ModelConfig::from_metadata(&store).expect("minimal command-r config should parse")
}

#[test]
fn test_arch_id() {
    assert_eq!(FalconArchitecture::new().arch_id(), "falcon");
}

#[test]
fn mod_test_arch_id() {
    {
        let arch = InternLm3Architecture::new();
        assert_eq!(arch.arch_id(), "internlm3");
    }
    {
        assert_eq!(MiniCpmArchitecture::new().arch_id(), "minicpm");
    }
    {
        assert_eq!(Olmo2Architecture::new().arch_id(), "olmo2");
    }
}

#[test]
fn test_tensor_names_is_non_empty() {
    let names = FalconArchitecture::new().tensor_names();
    assert!(!names.is_empty());
}

#[test]
fn mod_test_tensor_names_is_non_empty() {
    {
        let arch = InternLm3Architecture::new();
        let names = arch.tensor_names();
        assert!(!names.is_empty(), "tensor_names should not be empty");
    }
}

#[test]
fn test_tensor_names_non_empty() {
    let arch = MiniCpmArchitecture::new();
    assert!(!arch.tensor_names().is_empty());
}

#[test]
fn mod_test_tensor_names_non_empty() {
    {
        let arch = Olmo2Architecture::new();
        assert!(!arch.tensor_names().is_empty());
    }
}

#[test]
fn test_tensor_names_contains_token_embd() {
    let names = FalconArchitecture::new().tensor_names();
    assert!(
        names.iter().any(|p| p.pattern.contains("token_embd")),
        "must contain token_embd pattern"
    );
}

#[test]
fn mod_test_tensor_names_contains_token_embd() {
    {
        let arch = InternLm3Architecture::new();
        let names = arch.tensor_names();
        assert!(
            names.iter().any(|p| p.pattern.contains("token_embd")),
            "should contain a token embedding pattern"
        );
    }
    {
        let arch = MiniCpmArchitecture::new();
        assert!(arch
            .tensor_names()
            .iter()
            .any(|p| p.pattern.contains("token_embd")));
    }
}

#[test]
fn test_build_returns_missing_tensor() {
    let arch = MiniCpmArchitecture::new();
    let cfg = minicpm_config();
    let tensors = TensorStore::new();
    let result = arch.build(&cfg, &tensors);
    assert!(
        matches!(result, Err(ArchError::MissingTensor { .. })),
        "build() should return MissingTensor"
    );
}

#[test]
fn mod_test_build_returns_missing_tensor() {
    {
        let arch = Olmo2Architecture::new();
        let cfg = olmo2_config();
        let tensors = TensorStore::new();
        let result = arch.build(&cfg, &tensors);
        assert!(matches!(result, Err(ArchError::MissingTensor { .. })));
    }
}

#[test]
fn test_build_zero_heads_returns_config_mismatch() {
    let arch = MiniCpmArchitecture::new();
    let mut cfg = minicpm_config();
    cfg.num_attention_heads = 0;
    let tensors = TensorStore::new();
    assert!(matches!(
        arch.build(&cfg, &tensors),
        Err(ArchError::ConfigMismatch { .. })
    ));
}

#[test]
fn mod_test_build_zero_heads_returns_config_mismatch() {
    {
        let arch = Olmo2Architecture::new();
        let mut cfg = olmo2_config();
        cfg.num_attention_heads = 0;
        let tensors = TensorStore::new();
        assert!(matches!(
            arch.build(&cfg, &tensors),
            Err(ArchError::ConfigMismatch { .. })
        ));
    }
}

#[test]
fn test_build_zero_hidden_returns_config_mismatch() {
    let arch = MiniCpmArchitecture::new();
    let mut cfg = minicpm_config();
    cfg.hidden_size = 0;
    let tensors = TensorStore::new();
    assert!(matches!(
        arch.build(&cfg, &tensors),
        Err(ArchError::ConfigMismatch { .. })
    ));
}

#[test]
fn mod_test_build_zero_hidden_returns_config_mismatch() {
    {
        let arch = Olmo2Architecture::new();
        let mut cfg = olmo2_config();
        cfg.hidden_size = 0;
        let tensors = TensorStore::new();
        assert!(matches!(
            arch.build(&cfg, &tensors),
            Err(ArchError::ConfigMismatch { .. })
        ));
    }
}

#[test]
fn test_build_with_valid_config_returns_missing_tensor_err() {
    // build() always returns MissingTensor (full loading needs GgufModel).
    let arch = FalconArchitecture::new();
    let cfg = falcon_config();
    let tensors = TensorStore::new();
    let result = arch.build(&cfg, &tensors);
    assert!(
        matches!(result, Err(ArchError::MissingTensor { .. })),
        "build() should return MissingTensor"
    );
}

#[test]
fn test_build_with_zero_heads_returns_config_mismatch() {
    let arch = FalconArchitecture::new();
    let mut cfg = falcon_config();
    cfg.num_attention_heads = 0;
    let tensors = TensorStore::new();
    let result = arch.build(&cfg, &tensors);
    assert!(
        matches!(result, Err(ArchError::ConfigMismatch { .. })),
        "build() with zero heads should return ConfigMismatch"
    );
}

#[test]
fn test_build_with_zero_hidden_size_returns_config_mismatch() {
    let arch = FalconArchitecture::new();
    let mut cfg = falcon_config();
    cfg.hidden_size = 0;
    let tensors = TensorStore::new();
    let result = arch.build(&cfg, &tensors);
    assert!(
        matches!(result, Err(ArchError::ConfigMismatch { .. })),
        "build() with hidden_size=0 should return ConfigMismatch"
    );
}

#[test]
fn test_falcon_config_from_valid_model_config() {
    let cfg = falcon_config();
    let fcfg = FalconConfig::from_model_config(&cfg).unwrap();
    assert!(fcfg.n_heads > 0);
    assert!(fcfg.n_kv_heads > 0);
    assert!(fcfg.n_layers > 0);
    assert!(fcfg.hidden_size > 0);
}

#[test]
fn test_required_tensor_names_present() {
    let names = FalconArchitecture::new().tensor_names();
    let required: Vec<_> = names.iter().filter(|p| p.required).collect();
    assert!(
        !required.is_empty(),
        "must have at least one required tensor"
    );
    let req_pats: Vec<&str> = required.iter().map(|p| p.pattern.as_str()).collect();
    assert!(req_pats.contains(&"token_embd.weight"));
    assert!(req_pats.contains(&"output.weight"));
}

#[test]
fn test_required_global_tensors_present() {
    let pats = falcon_tensor_name_patterns();
    let required_globals = ["token_embd.weight", "output_norm.weight", "output.weight"];
    for name in required_globals {
        assert!(
            pats.iter().any(|p| p.pattern == name && p.required),
            "Required tensor {name:?} missing from patterns"
        );
    }
}

#[test]
fn test_required_per_layer_tensors_present() {
    let pats = falcon_tensor_name_patterns();
    let required_layer = [
        "blk.{i}.attn_norm.weight",
        "blk.{i}.attn_qkv.weight",
        "blk.{i}.attn_output.weight",
        "blk.{i}.ffn_up.weight",
        "blk.{i}.ffn_down.weight",
    ];
    for name in required_layer {
        assert!(
            pats.iter().any(|p| p.pattern == name && p.required),
            "Required layer tensor {name:?} missing from patterns"
        );
    }
}

#[test]
fn test_bias_tensors_are_optional() {
    let pats = falcon_tensor_name_patterns();
    let optional_biases = [
        "blk.{i}.attn_norm.bias",
        "blk.{i}.attn_qkv.bias",
        "blk.{i}.attn_output.bias",
        "blk.{i}.ffn_up.bias",
        "blk.{i}.ffn_down.bias",
    ];
    for name in optional_biases {
        assert!(
            pats.iter().any(|p| p.pattern == name && !p.required),
            "Bias tensor {name:?} should be optional"
        );
    }
}

#[test]
fn test_no_duplicate_patterns() {
    let pats = falcon_tensor_name_patterns();
    let mut seen = std::collections::HashSet::new();
    for p in &pats {
        let inserted = seen.insert(p.pattern.clone());
        assert!(inserted, "Duplicate pattern found: {}", p.pattern);
    }
}

#[test]
fn test_fused_qkv_not_split() {
    // Falcon uses fused QKV, not separate attn_q / attn_k / attn_v
    let pats = falcon_tensor_name_patterns();
    for p in &pats {
        assert!(
            !p.pattern.contains("attn_q."),
            "Falcon should not have separate attn_q tensor; found: {}",
            p.pattern
        );
        assert!(
            !p.pattern.contains("attn_k."),
            "Falcon should not have separate attn_k tensor; found: {}",
            p.pattern
        );
        assert!(
            !p.pattern.contains("attn_v."),
            "Falcon should not have separate attn_v tensor; found: {}",
            p.pattern
        );
    }
}

#[test]
fn test_tensor_names_has_required_block_patterns() {
    let arch = InternLm3Architecture::new();
    let names = arch.tensor_names();
    let required_patterns = [
        "token_embd.weight",
        "output_norm.weight",
        "blk.{i}.attn_q.weight",
        "blk.{i}.ffn_gate.weight",
    ];
    for pat in required_patterns {
        assert!(
            names.iter().any(|p| p.pattern == pat),
            "missing required pattern: {pat}"
        );
    }
}

#[test]
fn test_build_with_zero_heads_returns_config_error() {
    let arch = InternLm3Architecture::new();
    let mut config = internlm3_config();
    config.num_attention_heads = 0;
    let tensors = TensorStore::new();
    let result = arch.build(&config, &tensors);
    assert!(result.is_err());
    assert!(matches!(result, Err(ArchError::ConfigMismatch { .. })));
}

#[test]
fn internlm3_in_registry() {
    let registry = ArchitectureRegistry::with_builtins();
    assert!(
        registry.contains("internlm3"),
        "internlm3 must be present in the default registry"
    );
}

#[test]
fn test_tensor_names_contains_post_norm_tensors() {
    let arch = Olmo2Architecture::new();
    let names = arch.tensor_names();
    assert!(names.iter().any(|p| p.pattern.contains("attn_post_norm")));
    assert!(names.iter().any(|p| p.pattern.contains("ffn_post_norm")));
}

#[test]
fn test_tensor_names_contains_qk_norm() {
    let arch = Olmo2Architecture::new();
    let names = arch.tensor_names();
    assert!(names.iter().any(|p| p.pattern.contains("attn_q_norm")));
    assert!(names.iter().any(|p| p.pattern.contains("attn_k_norm")));
}

#[test]
fn test_patterns_non_empty() {
    let p = olmo2_tensor_name_patterns();
    assert!(!p.is_empty());
}

#[test]
fn test_token_embd_present() {
    let p = olmo2_tensor_name_patterns();
    assert!(p.iter().any(|t| t.pattern == "token_embd.weight"));
}

#[test]
fn test_output_weight_present() {
    let p = olmo2_tensor_name_patterns();
    assert!(p.iter().any(|t| t.pattern == "output.weight"));
}

#[test]
fn test_attn_post_norm_present() {
    let p = olmo2_tensor_name_patterns();
    assert!(
        p.iter().any(|t| t.pattern.contains("attn_post_norm")),
        "OLMo2 must have attn_post_norm"
    );
}

#[test]
fn test_ffn_post_norm_present() {
    let p = olmo2_tensor_name_patterns();
    assert!(
        p.iter().any(|t| t.pattern.contains("ffn_post_norm")),
        "OLMo2 must have ffn_post_norm"
    );
}

#[test]
fn test_qk_norm_tensors_present() {
    let p = olmo2_tensor_name_patterns();
    assert!(p.iter().any(|t| t.pattern.contains("attn_q_norm")));
    assert!(p.iter().any(|t| t.pattern.contains("attn_k_norm")));
}

#[test]
fn test_command_r_arch_id() {
    let arch = CommandRArchitecture::new();
    assert_eq!(arch.arch_id(), "command-r");
}

#[test]
fn test_command_r_tensor_names_is_non_empty() {
    let arch = CommandRArchitecture::new();
    let names = arch.tensor_names();
    assert!(!names.is_empty(), "tensor_names should not be empty");
}

#[test]
fn test_command_r_tensor_names_contains_token_embd() {
    let arch = CommandRArchitecture::new();
    let names = arch.tensor_names();
    let patterns: Vec<&str> = names.iter().map(|p| p.pattern.as_str()).collect();
    assert!(
        patterns.iter().any(|p| p.contains("token_embd")),
        "should contain a token embedding pattern"
    );
}

#[test]
fn test_command_r_tensor_names_contains_required() {
    let arch = CommandRArchitecture::new();
    let names = arch.tensor_names();

    // Check required tensors are listed.
    let required_patterns: Vec<&str> = names
        .iter()
        .filter(|p| p.required)
        .map(|p| p.pattern.as_str())
        .collect();

    assert!(
        required_patterns.contains(&"token_embd.weight"),
        "missing token_embd.weight"
    );
    assert!(
        required_patterns.contains(&"output.weight"),
        "missing output.weight"
    );

    // Optional Q/K norm tensors should be listed but not required.
    let q_norm = names
        .iter()
        .find(|p| p.pattern == "blk.{i}.attn_q_norm.weight")
        .expect("q_norm pattern should be present");
    assert!(!q_norm.required, "q_norm should be optional");

    let k_norm = names
        .iter()
        .find(|p| p.pattern == "blk.{i}.attn_k_norm.weight")
        .expect("k_norm pattern should be present");
    assert!(!k_norm.required, "k_norm should be optional");
}

#[test]
fn test_command_r_build_with_zero_heads_returns_config_error() {
    let arch = CommandRArchitecture::new();
    let mut config = command_r_config();
    config.num_attention_heads = 0;
    let tensors = TensorStore::new();
    let result = arch.build(&config, &tensors);
    assert!(result.is_err(), "build with zero heads should fail");
    assert!(
        matches!(result, Err(ArchError::ConfigMismatch { .. })),
        "error should be ConfigMismatch"
    );
}

#[test]
fn test_command_r_build_with_zero_hidden_size_returns_config_error() {
    let arch = CommandRArchitecture::new();
    let mut config = command_r_config();
    config.hidden_size = 0;
    let tensors = TensorStore::new();
    let result = arch.build(&config, &tensors);
    assert!(result.is_err(), "build with zero hidden_size should fail");
    assert!(
        matches!(result, Err(ArchError::ConfigMismatch { .. })),
        "error should be ConfigMismatch"
    );
}

#[test]
fn test_command_r_build_with_valid_config_returns_missing_tensor_error() {
    let arch = CommandRArchitecture::new();
    let config = command_r_config();
    let tensors = TensorStore::new();
    let result = arch.build(&config, &tensors);
    assert!(
        matches!(result, Err(ArchError::MissingTensor { .. })),
        "valid config with empty tensor store should return MissingTensor"
    );
}

#[test]
fn gptneox_registry_lookup() {
    let registry = ArchitectureRegistry::with_builtins();
    let arch = registry.get("gptneox");
    assert!(
        arch.is_ok(),
        "registry.get('gptneox') must succeed; got: {:?}",
        arch.err()
    );
    assert_eq!(arch.expect("gptneox arch").arch_id(), "gptneox");
}

#[test]
fn gptneox_tensor_names_complete() {
    let arch = GptNeoxArchitecture::new();
    let names = arch.tensor_names();
    assert!(
        !names.is_empty(),
        "tensor_names() must return at least one pattern"
    );
    for tp in &names {
        assert!(!tp.pattern.is_empty(), "pattern must not be empty");
        assert!(!tp.description.is_empty(), "description must not be empty");
    }
    let required_patterns = [
        "token_embd.weight",
        "output_norm.weight",
        "output.weight",
        "blk.{i}.ln1.weight",
        "blk.{i}.ln1.bias",
        "blk.{i}.ln2.weight",
        "blk.{i}.ln2.bias",
    ];
    let pattern_strs: Vec<&str> = names.iter().map(|n| n.pattern.as_str()).collect();
    for req in required_patterns {
        assert!(
            pattern_strs.contains(&req),
            "tensor_names should contain '{req}'"
        );
    }
}

#[test]
fn mixtral_registry_lookup() {
    let registry = ArchitectureRegistry::with_builtins();
    let arch = registry.get("mixtral");
    assert!(
        arch.is_ok(),
        "registry.get('mixtral') must succeed; got: {:?}",
        arch.err()
    );
    assert_eq!(arch.expect("mixtral arch").arch_id(), "mixtral");
}

#[test]
fn mixtral_tensor_names_complete() {
    let arch = MixtralArchitecture::new();
    let names = arch.tensor_names();
    assert!(
        !names.is_empty(),
        "tensor_names() must return at least one pattern"
    );

    // All patterns must be non-empty strings.
    for tp in &names {
        assert!(
            !tp.pattern.is_empty(),
            "TensorNamePattern.pattern must not be empty"
        );
        assert!(
            !tp.description.is_empty(),
            "TensorNamePattern.description must not be empty"
        );
    }

    // Required tensor names expected for Mixtral.
    let required_patterns = [
        "token_embd.weight",
        "output_norm.weight",
        "output.weight",
        "blk.{i}.ffn_gate_inp.weight",
        "blk.{i}.ffn_gate_exps.weight",
        "blk.{i}.ffn_up_exps.weight",
        "blk.{i}.ffn_down_exps.weight",
    ];
    let pattern_strs: Vec<&str> = names.iter().map(|n| n.pattern.as_str()).collect();
    for req in required_patterns {
        assert!(
            pattern_strs.contains(&req),
            "tensor_names should contain '{req}'"
        );
    }
}

#[test]
fn test_llava_arch_id() {
    let arch = LlavaArchitecture::new();
    assert_eq!(arch.arch_id(), "llava");
}

#[test]
fn test_llava_architecture_default() {
    let arch = LlavaArchitecture;
    assert_eq!(arch.arch_id(), "llava");
}

#[test]
fn test_llava_tensor_names_includes_mm_projector() {
    let arch = LlavaArchitecture::new();
    let names = arch.tensor_names();
    let patterns: Vec<&str> = names.iter().map(|n| n.pattern.as_str()).collect();
    assert!(
        patterns.contains(&"mm.0.weight"),
        "tensor_names must include mm.0.weight"
    );
    assert!(
        patterns.contains(&"mm.2.weight"),
        "tensor_names must include mm.2.weight"
    );
}

#[test]
fn test_llava_tensor_names_includes_vision_encoder() {
    let arch = LlavaArchitecture::new();
    let names = arch.tensor_names();
    let patterns: Vec<&str> = names.iter().map(|n| n.pattern.as_str()).collect();
    assert!(
        patterns.contains(&"v.patch_embd.weight"),
        "tensor_names must include v.patch_embd.weight"
    );
}

#[test]
fn registry_refuses_unknown_families() {
    let registry = ArchitectureRegistry::with_builtins();
    match registry.get("falcon2") {
        Err(ArchError::UnknownArchitecture { arch_id }) => assert_eq!(arch_id, "falcon2"),
        other => panic!("unexpected answer: {other:?}"),
    }
    assert!(!registry.contains(""));
}

#[test]
fn registry_finds_every_family_by_its_identifier() {
    let registry = ArchitectureRegistry::with_builtins();
    let ids = [
        "command-r", "dbrx", "falcon", "gptneox", "granite", "internlm3", "llava", "mamba2",
        "minicpm", "mixtral", "olmo2",
    ];
    assert_eq!(registry.entries.len(), ids.len());
    for id in ids {
        assert_eq!(registry.get(id).expect("known family").arch_id(), id);
    }
}

#[test]
fn refusals_name_what_is_wrong() {
    let arch = MiniCpmArchitecture::new();
    let mut cfg = minicpm_config();
    cfg.num_attention_heads = 0;
    cfg.hidden_size = 0;
    match arch.build(&cfg, &TensorStore::new()) {
        Err(ArchError::ConfigMismatch { param, .. }) => assert_eq!(param, "num_attention_heads"),
        other => panic!("unexpected answer: {other:?}"),
    }
}
