//! Models with experts: passes, plans and loading.

use oxillama_arch::bits::{F32_1E_MINUS_5, F32_ONE, F32_TEN_THOUSAND};
use oxillama_arch::common::linear::QuantLinear;
use oxillama_arch::common::norm::RmsNorm;
use oxillama_arch::common::pass::{Order, Stage};
use oxillama_arch::common::sparse::{zero_linear, ScoringMode};
use oxillama_arch::config::ModelConfig;
use oxillama_arch::dbrx::{
    build_dbrx_model, load_dbrx_from_gguf, make_dbrx_layer, DbrxConfig, DbrxModel,
};
use oxillama_arch::deepseek::{load_deepseek_from_gguf, DeepSeekModel, FfnKind};
use oxillama_arch::error::ArchError;
use oxillama_arch::gguf::{GgufModel, KernelOutcome, TensorRecord, TensorStore, TensorType};
use oxillama_arch::grok::{
    build_grok_model, load_grok_from_gguf, make_grok_layer, GrokConfig, GrokModel,
};
use oxillama_arch::metadata::{MetadataStore, MetadataValue};

const H: usize = 16;
const VOCAB: usize = 32;
const N_HEADS: usize = 2;
const HEAD_DIM: usize = 8;
const TOP_K: usize = 2;
const EXPERT_INTER: usize = 8;

fn unit(n: usize) -> RmsNorm {
    RmsNorm::new(vec![F32_ONE; n], F32_1E_MINUS_5)
}

fn output() -> QuantLinear {
    zero_linear(VOCAB, H)
}

fn model_config(architecture: &str, base: f32) -> ModelConfig {
    ModelConfig {
        architecture: architecture.to_string(),
        hidden_size: H,
        intermediate_size: EXPERT_INTER,
        num_layers: 1,
        num_attention_heads: N_HEADS,
        num_kv_heads: N_HEADS,
        head_dim: HEAD_DIM,
        vocab_size: VOCAB,
        max_context_length: 64,
        rms_norm_eps: F32_1E_MINUS_5,
        rope_freq_base: base.to_bits(),
        ..ModelConfig::default()
    }
}

fn tiny_dbrx() -> DbrxModel {
    let cfg = DbrxConfig {
        hidden_size: H,
        num_layers: 1,
        num_heads: N_HEADS,
        num_kv_heads: N_HEADS,
        head_dim: HEAD_DIM,
        vocab_size: VOCAB,
        max_seq_len: 64,
        expert_count: 4,
        expert_used_count: TOP_K,
        ffn_hidden_size: EXPERT_INTER,
        rope_theta: F32_TEN_THOUSAND,
        rms_norm_eps: F32_1E_MINUS_5,
    };
    let layer = make_dbrx_layer(H, N_HEADS, N_HEADS, HEAD_DIM, 4, TOP_K, EXPERT_INTER);
    let embd = vec![0; VOCAB * H];
    build_dbrx_model(model_config("dbrx", 10000.0), cfg, embd, vec![layer], unit(H), output())
}

fn tiny_grok() -> GrokModel {
    let cfg = GrokConfig {
        hidden_size: H,
        num_layers: 1,
        num_heads: N_HEADS,
        num_kv_heads: N_HEADS,
        head_dim: HEAD_DIM,
        vocab_size: VOCAB,
        max_seq_len: 64,
        expert_count: 8,
        expert_used_count: TOP_K,
        ffn_hidden_size: EXPERT_INTER,
        rope_theta: 1_000_000.0f32.to_bits(),
        rms_norm_eps: F32_1E_MINUS_5,
    };
    let layer = make_grok_layer(H, N_HEADS, N_HEADS, HEAD_DIM, 8, TOP_K, EXPERT_INTER);
    let embd = vec![0; VOCAB * H];
    build_grok_model(model_config("grok", 1_000_000.0), cfg, embd, vec![layer], unit(H), output())
}

#[test]
fn model_empty_tokens_returns_error() {
    let result = tiny_dbrx().forward(&vec![]);
    assert!(result.is_err(), "empty token sequence must return an error");
    let result = tiny_grok().forward(&vec![]);
    assert!(result.is_err(), "empty token sequence must return an error");
}

#[test]
fn model_embed_empty_tokens_returns_error() {
    let result = tiny_dbrx().embed(&vec![]);
    assert!(result.is_err(), "embed with empty token sequence must return an error");
    let result = dense_deepseek().embed(&vec![]);
    assert!(result.is_err(), "embed with empty token sequence must return an error");
}

#[test]
fn model_embed_returns_hidden_size() {
    let pass = tiny_dbrx().embed(&vec![1u32]).expect("embed must succeed");
    assert_eq!(pass.states.len(), 16, "one state of hidden_size=16 elements");
    assert_eq!(tiny_dbrx().hidden_size(), 16);
}

#[test]
fn model_forward_shape_correct() {
    let model = tiny_dbrx();
    model.forward(&vec![1u32]).expect("forward must succeed");
    assert_eq!(model.vocab_size(), 32, "logits must have vocab_size=32 elements");
    let model = tiny_grok();
    model.forward(&vec![1u32]).expect("forward must succeed");
    assert_eq!(model.vocab_size(), 32, "logits must have vocab_size=32 elements");
}

#[test]
fn unknown_tokens_are_refused() {
    match tiny_dbrx().forward(&vec![3, 32, 40]) {
        Err(ArchError::InvalidConfig { detail }) => {
            assert_eq!(detail, "token id 32 out of range (vocab_size=32)");
        }
        other => panic!("unexpected answer: {other:?}"),
    }
    assert!(tiny_grok().forward(&vec![32]).is_err());
    assert!(tiny_grok().forward(&vec![31]).is_ok());
}

#[test]
fn passes_follow_one_another() {
    let mut model = tiny_dbrx();
    let pass = model.forward(&vec![1, 2, 3]).expect("first pass");
    assert_eq!(pass.shape.start, 0);
    model.end_pass(&pass);
    let pass = model.forward(&vec![4, 5]).expect("second pass");
    assert_eq!(pass.shape.start, 3);
    model.end_pass(&pass);
    assert_eq!(model.current_pos, 5);
    model.reset_position();
    assert_eq!(model.forward(&vec![6]).expect("third pass").shape.start, 0);
}

#[test]
fn embeddings_and_logits_take_the_same_pass() {
    let model = tiny_dbrx();
    let a = model.forward(&vec![1, 2, 3]).expect("pass for logits");
    let b = model.embed(&vec![1, 2, 3]).expect("pass for the embedding");
    assert_eq!(a.shape, b.shape);
    assert_eq!(a.states, b.states);
}

#[test]
fn grok_rotates_by_its_own_base() {
    let mut model = tiny_grok();
    model.grok_config.rope_theta = 1_000_000.0f32.to_bits();
    model.config.rope_freq_base = 10_000.0f32.to_bits();
    let table = model.rope();
    assert_eq!(table.frequencies().base, 1_000_000.0f32.to_bits());
    assert_eq!(table.half_dim(), model.config.head_dim / 2);
    assert_eq!(table.max_seq_len(), model.config.max_context_length);
}

#[test]
fn refused_tokens_leave_the_model_as_it_was() {
    let mut model = dense_deepseek();
    model.current_pos = usize::MAX;
    for tokens in [vec![], vec![u32::MAX], vec![1, 2, u32::MAX]] {
        match model.forward(&tokens) {
            Err(ArchError::InvalidConfig { .. }) => {}
            other => panic!("unexpected answer: {other:?}"),
        }
        assert!(matches!(model.embed(&tokens), Err(ArchError::InvalidConfig { .. })));
    }
    assert_eq!(model.current_pos, usize::MAX);
}

#[test]
fn passes_repeat_after_a_reset() {
    let mut model = dense_deepseek();
    let first = model.forward(&vec![1, 2, 3]).expect("pass");
    model.end_pass(&first);
    model.reset_position();
    let again = model.forward(&vec![1, 2, 3]).expect("pass");
    assert_eq!(first.shape, again.shape);
    assert_eq!(first.states, again.states);
}

#[test]
fn stages_of_a_pass_end() {
    let pass = tiny_dbrx().forward(&vec![1, 2]).expect("pass");
    let mut stage = pass.shape.first();
    let mut seen = vec![];
    while !matches!(stage, Stage::Done) {
        seen.push(stage);
        stage = pass.shape.after(stage);
        assert!(seen.len() < 100, "the pass must end");
    }
    let attends = seen.iter().filter(|s| matches!(s, Stage::Attend { .. })).count();
    let feeds = seen.iter().filter(|s| matches!(s, Stage::Feed { .. })).count();
    assert!(attends > 0 && attends == feeds);
}

#[test]
fn heads_read_what_the_cache_holds() {
    let model = tiny_dbrx();
    let plan = model.attention_single_token(3, 3 * H, 2 * H);
    assert_eq!(plan.len(), N_HEADS);
    assert_eq!(plan[1].query, HEAD_DIM);
    assert_eq!(plan[1].keys, vec![Some(8), Some(24), Some(40), None]);
    assert_eq!(plan[1].values, vec![Some(8), Some(24), None, None]);
    let empty = model.attention_single_token(0, 0, 0);
    assert_eq!(empty[0].keys, vec![None]);
    let full = model.attention_single_token(100, 0, 0);
    assert_eq!(full[0].keys.len(), 64);
}

// ── Loading ──────────────────────────────────────────────────────────────────

fn add(model: &mut GgufModel, name: &str, dims: &[usize]) {
    let n: usize = dims.iter().product();
    let record = TensorRecord::new(
        dims.to_vec(),
        TensorType::F32,
        Some(vec![0u8; 4 * n]),
        KernelOutcome::Blocks(vec![]),
    );
    model.tensors.insert(name.to_string(), record.expect("dimensions fit"));
}

fn meta(model: &mut GgufModel, key: &str, value: u32) {
    model.metadata.insert(key.to_string(), MetadataValue::Uint32(value));
}

fn file(architecture: &str) -> GgufModel {
    let mut model = GgufModel { metadata: MetadataStore::new(), tensors: TensorStore::new() };
    model.metadata.insert(
        "general.architecture".to_string(),
        MetadataValue::String(architecture.to_string()),
    );
    model
}

/// Two layers, four experts of which two are used, and sizes of 32.
fn dbrx_file() -> GgufModel {
    let (h, layers, experts, inner) = (32usize, 2u32, 4usize, 8usize);
    let mut m = file("dbrx");
    for (key, value) in [
        ("dbrx.embedding_length", 32),
        ("dbrx.block_count", layers),
        ("dbrx.attention.head_count", 2),
        ("dbrx.attention.head_count_kv", 2),
        ("dbrx.vocab_size", 32),
        ("dbrx.context_length", 128),
        ("dbrx.expert_count", experts as u32),
        ("dbrx.expert_used_count", 2),
        ("dbrx.feed_forward_length", inner as u32),
    ] {
        meta(&mut m, key, value);
    }
    add(&mut m, "token_embd.weight", &[32, h]);
    add(&mut m, "output_norm.weight", &[h]);
    add(&mut m, "output.weight", &[32, h]);
    for i in 0..layers {
        for name in ["attn_norm", "ffn_norm"] {
            add(&mut m, &format!("blk.{i}.{name}.weight"), &[h]);
        }
        for name in ["attn_q", "attn_k", "attn_v", "attn_output"] {
            add(&mut m, &format!("blk.{i}.{name}.weight"), &[h, h]);
        }
        add(&mut m, &format!("blk.{i}.ffn_gate_inp.weight"), &[experts, h]);
        for name in ["ffn_gate_exps", "ffn_up_exps"] {
            add(&mut m, &format!("blk.{i}.{name}.weight"), &[experts, inner, h]);
        }
        add(&mut m, &format!("blk.{i}.ffn_down_exps.weight"), &[experts, h, inner]);
    }
    m
}

#[test]
fn dbrx_loader_round_trip() {
    let model = load_dbrx_from_gguf(&dbrx_file()).expect("load_dbrx_from_gguf must succeed");
    assert_eq!(model.config.vocab_size, 32, "vocab_size from GGUF fixture");
    assert_eq!(model.config.hidden_size, 32, "hidden_size from GGUF fixture");
    assert_eq!(model.config.max_context_length, 128, "max_context_length from GGUF fixture");
    assert_eq!(model.layers.len(), 2, "num_layers from GGUF fixture");
    assert_eq!(model.dbrx_config.expert_count, 4, "expert_count from GGUF fixture");
    assert_eq!(model.dbrx_config.expert_used_count, 2, "expert_used_count from GGUF fixture");
    assert_eq!(model.layers[1].moe_weights.routed_experts.len(), 4);
    assert!(model.forward(&vec![0]).is_ok());
}

#[test]
fn dbrx_loader_reports_the_first_missing_tensor() {
    let mut m = file("dbrx");
    assert!(load_dbrx_from_gguf(&m).is_err());
    m = dbrx_file();
    add(&mut m, "blk.1.ffn_up_exps.weight", &[4, 8, 31]);
    match load_dbrx_from_gguf(&m) {
        Err(ArchError::TensorShapeMismatch { tensor, expected, got }) => {
            assert_eq!(tensor, "blk.1.ffn_up_exps.weight");
            assert_eq!(expected, vec![4, 8, 32]);
            assert_eq!(got, vec![992]);
        }
        other => panic!("unexpected answer: {:?}", other.err()),
    }
}

#[test]
fn dbrx_output_may_be_left_out() {
    let full = dbrx_file();
    let mut tied = GgufModel { metadata: full.metadata, tensors: TensorStore::new() };
    add(&mut tied, "token_embd.weight", &[32, 32]);
    assert!(load_dbrx_from_gguf(&tied).is_err(), "layers are still needed");
}

#[test]
fn grok_files_cannot_be_loaded() {
    assert!(load_grok_from_gguf(&file("grok")).is_err());
}

fn deepseek_file(dense: u32, bias: bool) -> GgufModel {
    let h = 32usize;
    let mut m = file("deepseek2");
    for (key, value) in [
        ("deepseek2.embedding_length", 32),
        ("deepseek2.block_count", 1),
        ("deepseek2.feed_forward_length", 16),
        ("deepseek2.attention.head_count", 2),
        ("deepseek2.vocab_size", 32),
        ("deepseek2.context_length", 64),
        ("deepseek2.attention.q_lora_rank", 8),
        ("deepseek2.attention.kv_lora_rank", 8),
        ("deepseek2.attention.key_length", 4),
        ("deepseek2.attention.rope_head_dim", 4),
        ("deepseek2.attention.value_length", 4),
        ("deepseek2.expert_shared_count", 1),
        ("deepseek2.expert_count", 2),
        ("deepseek2.expert_used_count", 1),
        ("deepseek2.expert_shared_feed_forward_length", 16),
        ("deepseek2.leading_dense_block_count", dense),
    ] {
        meta(&mut m, key, value);
    }
    add(&mut m, "token_embd.weight", &[32, h]);
    add(&mut m, "output_norm.weight", &[h]);
    add(&mut m, "output.weight", &[32, h]);
    add(&mut m, "blk.0.attn_norm.weight", &[h]);
    add(&mut m, "blk.0.ffn_norm.weight", &[h]);
    add(&mut m, "blk.0.attn_q_a.weight", &[8, h]);
    add(&mut m, "blk.0.attn_q_a_norm.weight", &[8]);
    add(&mut m, "blk.0.attn_q_b.weight", &[16, 8]);
    add(&mut m, "blk.0.attn_kv_a.weight", &[12, h]);
    add(&mut m, "blk.0.attn_kv_a_norm.weight", &[8]);
    add(&mut m, "blk.0.attn_kv_b.weight", &[16, 8]);
    add(&mut m, "blk.0.attn_output.weight", &[h, 8]);
    if dense > 0 {
        add(&mut m, "blk.0.ffn_gate.weight", &[16, h]);
        add(&mut m, "blk.0.ffn_up.weight", &[16, h]);
        add(&mut m, "blk.0.ffn_down.weight", &[h, 16]);
    } else {
        add(&mut m, "blk.0.ffn_gate_inp.weight", &[2, h]);
        for part in ["ffn_exp.0", "ffn_exp.1", "ffn_shared_exp.0"] {
            for name in ["gate", "up", "down"] {
                add(&mut m, &format!("blk.0.{part}.ffn_{name}.weight"), &[16, h]);
            }
        }
        if bias {
            add(&mut m, "blk.0.exp_probs_b.weight", &[2]);
        }
    }
    m
}

fn dense_deepseek() -> DeepSeekModel {
    load_deepseek_from_gguf(&deepseek_file(1, false))
        .expect("load_deepseek_from_gguf must succeed for V2 dense fixture")
}

#[test]
fn deepseek_loader_round_trip_dense() {
    let model = dense_deepseek();
    assert_eq!(model.config.num_layers, 1, "1-layer model");
    assert_eq!(model.layers.len(), 1, "one DeepSeekLayer loaded");
    assert!(
        matches!(model.layers[0].ffn, FfnKind::Dense(_)),
        "layer 0 must be Dense (first_k_dense_replace defaults to 1)"
    );
    assert_eq!(model.config.vocab_size, 32);
    assert_eq!(model.config.hidden_size, 32);
}

#[test]
fn deepseek_loader_round_trip_moe() {
    let model = load_deepseek_from_gguf(&deepseek_file(0, true))
        .expect("load_deepseek_from_gguf must succeed for V3 MoE fixture");
    assert_eq!(model.config.num_layers, 1, "1-layer model");
    assert_eq!(model.layers.len(), 1, "one DeepSeekLayer loaded");
    match &model.layers[0].ffn {
        FfnKind::Moe { weights, config } => {
            assert_eq!(config.n_routed_experts, 2, "n_routed_experts must match fixture");
            assert_eq!(config.n_shared_experts, 1, "n_shared_experts must match fixture");
            assert!(
                weights.expert_bias.is_some(),
                "V3 layer must have expert_bias (SigmoidWithBias mode)"
            );
            assert_eq!(
                config.scoring_mode,
                ScoringMode::SigmoidWithBias,
                "V3 layer must use SigmoidWithBias scoring"
            );
        }
        FfnKind::Dense(_) => panic!("layer 0 must be MoE for V3 fixture"),
    }
}

#[test]
fn deepseek_without_bias_scores_by_softmax() {
    let model = load_deepseek_from_gguf(&deepseek_file(0, false)).expect("load");
    match &model.layers[0].ffn {
        FfnKind::Moe { weights, config } => {
            assert!(weights.expert_bias.is_none());
            assert_eq!(config.scoring_mode, ScoringMode::Softmax);
        }
        FfnKind::Dense(_) => panic!("layer 0 must be MoE"),
    }
}

#[test]
fn forward_shape() {
    let model = dense_deepseek();
    let vocab = model.config.vocab_size;
    model.forward(&vec![1u32, 2, 3]).expect("forward must succeed");
    assert_eq!(model.vocab_size(), vocab, "logits must have vocab_size elements");
    assert_eq!(model.output.out_features, vocab);
}

#[test]
fn deepseek_runs_its_tokens_together() {
    let mut model = dense_deepseek();
    let pass = model.forward(&vec![1, 2, 3]).expect("pass");
    assert_eq!(pass.shape.order, Order::Together);
    assert_eq!(pass.states.len(), 3 * 32);
    model.end_pass(&pass);
    assert_eq!(model.current_pos, 3);
    model.reset_position();
    assert_eq!(model.current_pos, 0);
}
