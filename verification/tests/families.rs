//! Configurations of single families.

use oxillama_arch::bits::{positive, F32_1E_MINUS_9, F32_TEN_THOUSAND};
use oxillama_arch::common::rope::RopeScalingType;
use oxillama_arch::config::{DeepSeekConfig, ModelConfig};
use oxillama_arch::dbrx::DbrxConfig;
use oxillama_arch::falcon::FalconConfig;
use oxillama_arch::grok::GrokConfig;
use oxillama_arch::mamba2::Mamba2Config;
use oxillama_arch::metadata::{MetadataStore, MetadataValue};
use oxillama_arch::minicpm::{MiniCpmConfig, Ratio};
use oxillama_arch::mixtral::MixtralMoeConfig;

fn make_falcon1_config() -> ModelConfig {
    let mut store = MetadataStore::new();
    store.insert(
        "general.architecture".to_string(),
        MetadataValue::String("falcon".to_string()),
    );
    // Falcon-1 uses GELU activation (old BigCode-style FFN)
    // We signal ALiBi by keeping activation = "gelu"
    store.insert(
        "falcon.embedding_length".to_string(),
        MetadataValue::Uint32(4544),
    );
    store.insert("falcon.block_count".to_string(), MetadataValue::Uint32(32));
    store.insert(
        "falcon.attention.head_count".to_string(),
        MetadataValue::Uint32(71),
    );
    store.insert(
        "falcon.attention.head_count_kv".to_string(),
        MetadataValue::Uint32(1),
    );
    let mut cfg = ModelConfig::from_metadata(&store).expect("falcon1 config");
    cfg.activation = "gelu".to_string();
    cfg
}

fn make_falcon2_config() -> ModelConfig {
    let mut store = MetadataStore::new();
    store.insert(
        "general.architecture".to_string(),
        MetadataValue::String("falcon".to_string()),
    );
    store.insert(
        "falcon.embedding_length".to_string(),
        MetadataValue::Uint32(2048),
    );
    store.insert("falcon.block_count".to_string(), MetadataValue::Uint32(32));
    store.insert(
        "falcon.attention.head_count".to_string(),
        MetadataValue::Uint32(32),
    );
    store.insert(
        "falcon.attention.head_count_kv".to_string(),
        MetadataValue::Uint32(8),
    );
    ModelConfig::from_metadata(&store).expect("falcon2 config")
}

#[test]
fn test_falcon1_is_alibi_parallel() {
    let cfg = FalconConfig::from_model_config(&make_falcon1_config()).unwrap();
    assert!(cfg.alibi, "Falcon-1 should use ALiBi");
    assert!(!cfg.rope, "Falcon-1 should not use RoPE");
    assert!(cfg.parallel_attn, "Falcon-1 should use parallel attention");
}

#[test]
fn test_falcon2_is_rope_gqa() {
    let cfg = FalconConfig::from_model_config(&make_falcon2_config()).unwrap();
    assert!(cfg.rope, "Falcon-2 should use RoPE");
    assert!(!cfg.alibi, "Falcon-2 should not use ALiBi");
    assert!(
        !cfg.parallel_attn,
        "Falcon-2 should not use parallel attention"
    );
    assert!(cfg.n_kv_heads < cfg.n_heads, "Falcon-2 should use GQA");
}

fn make_minicpm_metadata() -> MetadataStore {
    let mut store = MetadataStore::new();
    store.insert(
        "general.architecture".to_string(),
        MetadataValue::String("minicpm".to_string()),
    );
    store.insert(
        "minicpm.embedding_length".to_string(),
        MetadataValue::Uint32(2048),
    );
    store.insert("minicpm.block_count".to_string(), MetadataValue::Uint32(40));
    store.insert(
        "minicpm.attention.head_count".to_string(),
        MetadataValue::Uint32(32),
    );
    store.insert(
        "minicpm.attention.head_count_kv".to_string(),
        MetadataValue::Uint32(32),
    );
    store.insert(
        "minicpm.feed_forward_length".to_string(),
        MetadataValue::Uint32(5504),
    );
    store.insert(
        "minicpm.rope.freq_base".to_string(),
        MetadataValue::Float32(10000.0f32.to_bits()),
    );
    store
}

fn scale(r: Ratio) -> f32 {
    r.numerator as f32 / r.denominator as f32
}

#[test]
fn test_config_from_metadata() {
    let store = make_minicpm_metadata();
    let model_cfg = ModelConfig::from_metadata(&store).expect("model config");
    let cfg = MiniCpmConfig::from_model_config(&model_cfg).expect("minicpm config");

    assert_eq!(cfg.hidden_size, 2048);
    assert_eq!(cfg.n_layers, 40);
    assert_eq!(cfg.n_heads, 32);
    assert_eq!(cfg.n_kv_heads, 32);
    assert_eq!(cfg.intermediate_size, 5504);
    assert!(positive(cfg.rope_freq_base));
    assert!(positive(cfg.norm_eps));
    assert_eq!(cfg.head_dim, 64);
}

#[test]
fn test_embedding_scale_default_is_one() {
    let store = make_minicpm_metadata();
    let model_cfg = ModelConfig::from_metadata(&store).expect("model config");
    let cfg = MiniCpmConfig::from_model_config(&model_cfg).expect("minicpm config");
    // Default: dim_model_base == hidden_size → scale == 1.0
    assert!((scale(cfg.embedding_scale) - 1.0).abs() < 1e-6);
}

#[test]
fn test_embedding_scale_with_dim_model_base() {
    let store = make_minicpm_metadata();
    let model_cfg = ModelConfig::from_metadata(&store).expect("model config");
    let cfg = MiniCpmConfig::from_model_config(&model_cfg)
        .expect("minicpm config")
        .with_dim_model_base(256);

    // 2048 / 256 = 8.0
    assert!((scale(cfg.embedding_scale) - 8.0).abs() < 1e-5);
}

#[test]
fn test_config_has_positive_head_dim() {
    let store = make_minicpm_metadata();
    let model_cfg = ModelConfig::from_metadata(&store).expect("model config");
    let cfg = MiniCpmConfig::from_model_config(&model_cfg).expect("minicpm config");
    assert!(cfg.head_dim > 0);
}

#[test]
fn defaults_are_reasonable() {
    let store = MetadataStore::new();
    let cfg = DbrxConfig::from_metadata(&store);
    assert_eq!(cfg.expert_count, 16, "default DBRX expert count is 16");
    assert_eq!(cfg.expert_used_count, 4, "default DBRX top-k is 4");
}

#[test]
fn config_parses_custom_fields() {
    {
        let mut store = MetadataStore::new();
        store.insert(
            "dbrx.embedding_length".to_string(),
            MetadataValue::Uint32(32),
        );
        store.insert("dbrx.block_count".to_string(), MetadataValue::Uint32(2));
        store.insert(
            "dbrx.attention.head_count".to_string(),
            MetadataValue::Uint32(2),
        );
        store.insert("dbrx.expert_count".to_string(), MetadataValue::Uint32(4));
        store.insert(
            "dbrx.expert_used_count".to_string(),
            MetadataValue::Uint32(2),
        );
        store.insert("dbrx.vocab_size".to_string(), MetadataValue::Uint32(32));
        let cfg = DbrxConfig::from_metadata(&store);
        assert_eq!(cfg.hidden_size, 32);
        assert_eq!(cfg.num_layers, 2);
        assert_eq!(cfg.expert_count, 4);
        assert_eq!(cfg.expert_used_count, 2);
        assert_eq!(cfg.head_dim, 16); // 32 / 2
    }
    {
        let mut store = MetadataStore::new();
        store.insert(
            "grok.embedding_length".to_string(),
            MetadataValue::Uint32(32),
        );
        store.insert("grok.block_count".to_string(), MetadataValue::Uint32(2));
        store.insert(
            "grok.attention.head_count".to_string(),
            MetadataValue::Uint32(2),
        );
        store.insert("grok.expert_count".to_string(), MetadataValue::Uint32(8));
        store.insert(
            "grok.expert_used_count".to_string(),
            MetadataValue::Uint32(2),
        );
        store.insert("grok.vocab_size".to_string(), MetadataValue::Uint32(32));
        let cfg = GrokConfig::from_metadata(&store);
        assert_eq!(cfg.hidden_size, 32);
        assert_eq!(cfg.num_layers, 2);
        assert_eq!(cfg.expert_count, 8);
        assert_eq!(cfg.expert_used_count, 2);
        assert_eq!(cfg.head_dim, 16); // 32 / 2
    }
}

#[test]
fn defaults_are_grok1() {
    let store = MetadataStore::new();
    let cfg = GrokConfig::from_metadata(&store);
    assert_eq!(cfg.expert_count, 8, "default Grok-1 expert count is 8");
    assert_eq!(cfg.expert_used_count, 2, "default Grok-1 top-k is 2");
    assert!(
        (f32::from_bits(cfg.rope_theta) - 1_000_000.0).abs() < 1.0,
        "default Grok-1 rope_theta is 1e6"
    );
}

#[test]
fn rope_theta_is_1e6() {
    let mut store = MetadataStore::new();
    // No key → should default to 1e6
    let cfg = GrokConfig::from_metadata(&store);
    assert!(
        (f32::from_bits(cfg.rope_theta) - 1_000_000.0).abs() < 1.0,
        "Grok-1 default rope_theta must be 1e6"
    );

    // Explicit override should be respected.
    store.insert(
        "grok.rope.freq_base".to_string(),
        MetadataValue::Float32(500_000.0f32.to_bits()),
    );
    let cfg2 = GrokConfig::from_metadata(&store);
    assert!(
        (f32::from_bits(cfg2.rope_theta) - 500_000.0).abs() < 1.0,
        "explicit rope_theta override must be respected"
    );
}

#[test]
fn empty_sizes_count_as_one() {
    let empty = ModelConfig {
        hidden_size: 0,
        intermediate_size: 0,
        num_layers: 0,
        num_attention_heads: 0,
        num_kv_heads: 0,
        vocab_size: 0,
        max_context_length: 0,
        rms_norm_eps: 0,
        rope_freq_base: (-1.0f32).to_bits(),
        ..ModelConfig::default()
    };
    let falcon = FalconConfig::from_model_config(&empty).expect("falcon config");
    assert_eq!(falcon.n_heads, 1);
    assert_eq!(falcon.n_kv_heads, 1);
    assert_eq!(falcon.n_layers, 1);
    assert_eq!(falcon.hidden_size, 1);
    assert_eq!(falcon.vocab_size, 1);
    assert_eq!(falcon.intermediate_size, 1);
    assert_eq!(falcon.head_dim, 1);
    assert_eq!(falcon.norm_eps, F32_1E_MINUS_9);
    assert_eq!(falcon.rope_freq_base, F32_TEN_THOUSAND);
    let mini = MiniCpmConfig::from_model_config(&empty).expect("minicpm config");
    assert_eq!(mini.max_context_length, 1);
    assert_eq!(mini.with_dim_model_base(0).embedding_scale, Ratio { numerator: 1, denominator: 1 });
}

#[test]
fn heads_smaller_than_their_number_keep_one_element() {
    let config = ModelConfig { hidden_size: 3, num_attention_heads: 8, ..ModelConfig::default() };
    assert_eq!(FalconConfig::from_model_config(&config).expect("config").head_dim, 1);
}

#[test]
fn experts_of_mixtral_have_defaults() {
    let bare = ModelConfig { num_experts: 0, num_experts_used: 0, ..ModelConfig::default() };
    let moe = MixtralMoeConfig::from_model_config(&bare);
    assert_eq!((moe.num_experts, moe.num_experts_used), (8, 2));
    let named = ModelConfig { num_experts: 4, num_experts_used: 1, ..ModelConfig::default() };
    let moe = MixtralMoeConfig::from_model_config(&named);
    assert_eq!((moe.num_experts, moe.num_experts_used), (4, 1));
}

#[test]
fn deepseek_defaults_follow_the_hidden_size() {
    let mut store = MetadataStore::new();
    let cfg = DeepSeekConfig::from_metadata(&store, 100);
    assert_eq!(cfg.shared_expert_intermediate_size, 200);
    assert_eq!(cfg.q_lora_rank, 1536);
    assert_eq!(cfg.first_k_dense_replace, 1);
    store.insert("deepseek2.expert_shared_feed_forward_length".to_string(), MetadataValue::Uint32(7));
    store.insert("deepseek2.expert_count".to_string(), MetadataValue::Float32(0));
    let cfg = DeepSeekConfig::from_metadata(&store, 100);
    assert_eq!(cfg.shared_expert_intermediate_size, 7);
    assert_eq!(cfg.n_routed_experts, 64);
}

#[test]
fn mamba2_inner_size_is_expanded() {
    let cfg = Mamba2Config {
        d_model: 16,
        n_layer: 1,
        d_state: 8,
        d_conv: 4,
        expand: 3,
        vocab_size: 64,
        max_seq_len: 256,
    };
    assert_eq!(cfg.d_inner(), 48);
}

#[test]
fn later_metadata_replaces_earlier() {
    let mut store = MetadataStore::new();
    store.insert("a".to_string(), MetadataValue::Uint32(1));
    store.insert("b".to_string(), MetadataValue::Uint32(2));
    store.insert("a".to_string(), MetadataValue::Uint32(3));
    assert_eq!(store.get_u32("a"), Some(3));
    assert_eq!(store.get_u32("b"), Some(2));
    assert_eq!(store.get_u32("c"), None);
    assert_eq!(store.get_f32("a"), None);
    assert!(store.get_string("a").is_none());
    assert_eq!(store.usize_or("c", 9), 9);
}

#[test]
fn scaling_of_angles_is_read_by_its_name() {
    for (name, kind) in [
        ("linear", RopeScalingType::Linear),
        ("yarn", RopeScalingType::Yarn),
        ("ntk", RopeScalingType::Standard),
    ] {
        let mut store = MetadataStore::new();
        store.insert(
            "general.architecture".to_string(),
            MetadataValue::String("llama".to_string()),
        );
        store.insert(
            "llama.rope.scaling.type".to_string(),
            MetadataValue::String(name.to_string()),
        );
        let cfg = ModelConfig::from_metadata(&store).expect("config");
        assert_eq!(cfg.rope_scaling_type, kind);
    }
}

#[test]
fn dbrx_has_one_base_frequency() {
    let mut store = MetadataStore::new();
    store.insert("general.architecture".to_string(), MetadataValue::String("dbrx".to_string()));
    let shared = |s: &MetadataStore| ModelConfig::from_metadata(s).expect("known").rope_freq_base;
    assert_eq!(shared(&store), DbrxConfig::from_metadata(&store).rope_theta);
    let base = 500_000.0f32.to_bits();
    store.insert("dbrx.rope.freq_base".to_string(), MetadataValue::Float32(base));
    assert_eq!(shared(&store), base);
    assert_eq!(DbrxConfig::from_metadata(&store).rope_theta, base);
}
