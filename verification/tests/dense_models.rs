//! Dense models: passes, plans and access to sizes.

use oxillama_arch::bits::{F32_1E_MINUS_5, F32_ONE, F32_TEN_THOUSAND};
use oxillama_arch::command_r::CommandRModel;
use oxillama_arch::common::linear::QuantTensor;
use oxillama_arch::common::norm::{LayerNorm, RmsNorm};
use oxillama_arch::common::pass::{begin_token_pass, NetworkInput, Order, PassShape, Stage};
use oxillama_arch::common::sparse::zero_linear;
use oxillama_arch::config::ModelConfig;
use oxillama_arch::error::ArchError;
use oxillama_arch::falcon::{FalconConfig, FalconForward, FalconLayer, FalconMode};
use oxillama_arch::gemma::{GemmaModel, LogitSource};
use oxillama_arch::gguf::TensorType;
use oxillama_arch::gpt_neox::{GptNeoxLayer, GptNeoxModel, DEFAULT_PARTIAL_ROTARY_FACTOR};
use oxillama_arch::llama::LlamaModel;
use oxillama_arch::minicpm::{MiniCpmConfig, MiniCpmForward, MiniCpmLayer, Ratio};
use oxillama_arch::mixtral::MixtralModel;
use oxillama_arch::olmo2::{Olmo2Config, Olmo2Forward, Olmo2Layer};
use oxillama_arch::phi::PhiModel;

fn zero_tensor(rows: usize, cols: usize) -> QuantTensor {
    QuantTensor {
        tensor_type: TensorType::F32,
        shape: vec![rows, cols],
        data: vec![0u8; rows * cols * 4],
    }
}

fn layer_norm(n: usize) -> LayerNorm {
    LayerNorm::new(vec![F32_ONE; n], Some(vec![0; n]), F32_1E_MINUS_5)
}

fn rms_norm(n: usize) -> RmsNorm {
    RmsNorm::new(vec![F32_ONE; n], F32_1E_MINUS_5)
}

// ── Falcon ───────────────────────────────────────────────────────────────────

fn falcon(first: bool) -> FalconForward {
    let cfg = FalconConfig {
        n_heads: 4,
        n_kv_heads: if first { 1 } else { 2 },
        n_layers: 2,
        hidden_size: 32,
        vocab_size: 64,
        intermediate_size: 64,
        norm_eps: F32_1E_MINUS_5,
        parallel_attn: first,
        alibi: first,
        rope: !first,
        rope_freq_base: F32_TEN_THOUSAND,
        head_dim: 8,
    };
    let qkv_total = (cfg.n_heads + 2 * cfg.n_kv_heads) * cfg.head_dim;
    let layers = (0..cfg.n_layers)
        .map(|_| FalconLayer {
            attn_norm: layer_norm(32),
            ffn_norm: if first { None } else { Some(layer_norm(32)) },
            attn_qkv_weight: zero_tensor(qkv_total, 32),
            attn_qkv_bias: None,
            attn_out_weight: zero_tensor(32, 32),
            attn_out_bias: None,
            ffn_up_weight: zero_tensor(64, 32),
            ffn_up_bias: None,
            ffn_down_weight: zero_tensor(32, 64),
            ffn_down_bias: None,
        })
        .collect();
    FalconForward::new(cfg, vec![0; 64 * 32], layers, layer_norm(32), vec![0; 64 * 32], 128)
}

/// Steps through a pass, and counts the tokens that passed the last layer.
fn finish(model: &FalconForward, tokens: &Vec<u32>, cached: usize) -> usize {
    let run = model.forward(tokens, cached);
    assert!(run.refusal.is_none());
    let shape = run.pass.shape;
    let mut stage = shape.first();
    let mut done = shape.ended_at_once();
    while !matches!(stage, Stage::Done) {
        if shape.ends_token(stage) {
            done += 1;
        }
        stage = shape.after(stage);
    }
    done
}

#[test]
fn test_falcon1_forward_returns_vocab_size_logits() {
    let model = falcon(true);
    assert!(model.forward(&vec![0u32], 0).refusal.is_none());
    assert_eq!(model.logit_rows().len(), 64, "logits must match vocab_size");
}

#[test]
fn test_falcon2_forward_returns_vocab_size_logits() {
    let model = falcon(false);
    assert!(model.forward(&vec![0u32], 0).refusal.is_none());
    assert_eq!(model.logit_rows().len(), 64, "logits must match vocab_size");
}

#[test]
fn test_forward_multi_token() {
    let model = falcon(true);
    assert_eq!(finish(&model, &vec![0u32, 1u32, 2u32], 0), 3);
    assert_eq!(model.logit_rows().len(), 64);
}

#[test]
fn test_kv_cache_advances_correctly() {
    let model = falcon(true);
    let mut seq_len = 0;
    seq_len += finish(&model, &vec![0u32], seq_len);
    assert_eq!(seq_len, 1);
    seq_len += finish(&model, &vec![1u32], seq_len);
    assert_eq!(seq_len, 2);
}

#[test]
fn test_vocab_size_and_hidden_size_accessors() {
    let model = falcon(true);
    assert_eq!(model.vocab_size(), 64);
    assert_eq!(model.hidden_size(), 32);
    assert_eq!(model.max_context_length(), 128);
}

#[test]
fn test_invalid_token_returns_error() {
    let model = falcon(true);
    let run = model.forward(&vec![64u32], 0);
    assert!(run.refusal.is_some(), "Out-of-vocab token should return an error");
    assert_eq!(run.pass.shape.tokens, 0);
}

#[test]
fn falcon_runs_tokens_before_an_unknown_one() {
    let run = falcon(true).forward(&vec![1, 2, 99, 3], 5);
    assert_eq!(run.pass.shape.tokens, 2);
    assert_eq!(run.pass.shape.start, 5);
    assert_eq!(run.pass.states.len(), 64);
    match run.refusal {
        Some(ArchError::ConfigMismatch { param, .. }) => assert_eq!(param, "token id"),
        other => panic!("unexpected refusal: {other:?}"),
    }
    let none = falcon(true).forward(&vec![], 0);
    assert_eq!(none.pass.shape.tokens, 0);
    assert!(none.refusal.is_none());
}

#[test]
fn falcon_layers_follow_their_norms() {
    assert_eq!(falcon(true).layer_forward(0), FalconMode::Parallel);
    let mut second = falcon(false);
    assert_eq!(second.layer_forward(1), FalconMode::Sequential);
    second.layers[1].ffn_norm = None;
    assert_eq!(second.layer_forward(1), FalconMode::SequentialShared);
    assert!(falcon(true).rope_table.is_none());
    assert_eq!(falcon(false).rope_table.expect("angles").max_seq_len(), 128);
}

#[test]
fn falcon_splits_its_joint_projection() {
    let model = falcon(false);
    let fused: Vec<u32> = (0..64).collect();
    let parts = model.project_qkv(&fused);
    assert_eq!(parts.query, (0..32).collect::<Vec<u32>>());
    assert_eq!(parts.key, (32..48).collect::<Vec<u32>>());
    assert_eq!(parts.value, (48..64).collect::<Vec<u32>>());
}

#[test]
fn falcon_heads_share_keys() {
    let plan = falcon(false).attention(1);
    assert_eq!(plan.len(), 4);
    assert_eq!(plan[0].keys, plan[1].keys);
    assert_eq!(plan[3].query, 24);
    assert_eq!(plan[0].keys, vec![0, 16]);
    assert_eq!(plan[2].keys, vec![8, 24]);
}

// ── MiniCPM and OLMo2 ────────────────────────────────────────────────────────

fn minicpm(hidden: usize, inner: usize, vocab: usize) -> MiniCpmForward {
    let cfg = MiniCpmConfig {
        n_layers: 1,
        hidden_size: hidden,
        n_heads: 2,
        n_kv_heads: 2,
        intermediate_size: inner,
        vocab_size: vocab,
        max_context_length: 16,
        norm_eps: F32_1E_MINUS_5,
        rope_freq_base: F32_TEN_THOUSAND,
        head_dim: hidden / 2,
        dim_model_base: hidden,
        embedding_scale: Ratio { numerator: hidden, denominator: hidden },
    };
    let layer = MiniCpmLayer {
        attn_norm: rms_norm(hidden),
        ffn_norm: rms_norm(hidden),
        attn_q: zero_tensor(hidden, hidden),
        attn_k: zero_tensor(hidden, hidden),
        attn_v: zero_tensor(hidden, hidden),
        attn_out: zero_tensor(hidden, hidden),
        ffn_gate: zero_tensor(inner, hidden),
        ffn_up: zero_tensor(inner, hidden),
        ffn_down: zero_tensor(hidden, inner),
    };
    let table = vec![0; vocab * hidden];
    MiniCpmForward::new(cfg, table.clone(), vec![layer], rms_norm(hidden), table, 16)
}

fn olmo2(hidden: usize, inner: usize, vocab: usize) -> Olmo2Forward {
    let cfg = Olmo2Config {
        n_layers: 1,
        hidden_size: hidden,
        n_heads: 2,
        n_kv_heads: 2,
        intermediate_size: inner,
        vocab_size: vocab,
        max_context_length: 16,
        norm_eps: F32_1E_MINUS_5,
        rope_freq_base: 500_000.0f32.to_bits(),
        head_dim: hidden / 2,
    };
    let layer = Olmo2Layer {
        q_norm: rms_norm(hidden / 2),
        k_norm: rms_norm(hidden / 2),
        attn_post_norm: rms_norm(hidden),
        ffn_post_norm: rms_norm(hidden),
        attn_q: zero_tensor(hidden, hidden),
        attn_k: zero_tensor(hidden, hidden),
        attn_v: zero_tensor(hidden, hidden),
        attn_out: zero_tensor(hidden, hidden),
        ffn_gate: zero_tensor(inner, hidden),
        ffn_up: zero_tensor(inner, hidden),
        ffn_down: zero_tensor(hidden, inner),
    };
    let table = vec![0; vocab * hidden];
    Olmo2Forward::new(cfg, table.clone(), vec![layer], rms_norm(hidden), table, 16)
}

#[test]
fn forward_test_forward_returns_correct_vocab_size() {
    let vocab = 32;
    let fwd = minicpm(4, 8, vocab);
    let result = fwd.run_layers(&vec![0u32], 0);
    assert!(result.is_ok(), "forward should succeed: {:?}", result);
    assert_eq!(fwd.logit_rows().len(), vocab);
    let fwd = olmo2(4, 8, vocab);
    let result = fwd.run_layers(&vec![0u32], 0);
    assert!(result.is_ok(), "forward should succeed: {:?}", result);
    assert_eq!(fwd.logit_rows().len(), vocab);
}

#[test]
fn forward_test_vocab_size_accessor() {
    assert_eq!(minicpm(4, 8, 100).vocab_size(), 100);
    assert_eq!(olmo2(4, 8, 100).vocab_size(), 100);
}

#[test]
fn forward_test_hidden_size_accessor() {
    assert_eq!(minicpm(4, 8, 100).hidden_size(), 4);
    assert_eq!(olmo2(4, 8, 100).hidden_size(), 4);
}

#[test]
fn forward_test_max_context_length_accessor() {
    assert_eq!(minicpm(4, 8, 100).max_context_length(), 16);
    assert_eq!(olmo2(4, 8, 100).max_context_length(), 16);
}

#[test]
fn only_the_last_token_is_run() {
    let mut fwd = minicpm(4, 8, 3);
    fwd.token_embd = (0..12).collect();
    let pass = fwd.run_layers(&vec![9, 9, 2], 7).expect("last token is known");
    assert_eq!(pass.states, vec![8, 9, 10, 11]);
    assert_eq!((pass.shape.tokens, pass.shape.start), (1, 7));
    match fwd.run_layers(&vec![1, 3], 0) {
        Err(ArchError::ConfigMismatch { param, .. }) => assert_eq!(param, "token_id"),
        other => panic!("unexpected answer: {other:?}"),
    }
    match fwd.run_layers(&vec![], 0) {
        Err(ArchError::ConfigMismatch { param, expected, got }) => {
            assert_eq!((param.as_str(), expected.as_str(), got.as_str()), ("tokens", "non-empty", "empty"));
        }
        other => panic!("unexpected answer: {other:?}"),
    }
}

#[test]
fn test_embedding_scale_applied() {
    let vocab = 16;
    let mut fwd = minicpm(4, 8, vocab);
    fwd.cfg.embedding_scale = Ratio { numerator: 2, denominator: 1 };
    let result = fwd.run_layers(&vec![0u32], 0);
    assert!(result.is_ok());
    assert_eq!(fwd.logit_rows().len(), vocab);
}

#[test]
fn tokens_before_the_last_make_no_difference() {
    let mut fwd = minicpm(4, 8, 3);
    fwd.token_embd = (0..12).collect();
    let all = fwd.forward(&vec![9, 1, 2], 7).expect("last token is known");
    let alone = fwd.forward(&vec![2], 7).expect("known token");
    assert_eq!(all.shape, alone.shape);
    assert_eq!(all.states, alone.states);
    let embedded = fwd.embed(&vec![0, 2], 7).expect("known token");
    assert_eq!(embedded.states, alone.states);
    assert!(fwd.forward(&vec![2, 9], 7).is_err());
    let mut other = olmo2(4, 8, 3);
    other.token_embd = (0..12).collect();
    let all = other.forward(&vec![9, 1], 2).expect("last token is known");
    assert_eq!(all.states, other.embed(&vec![1], 2).expect("known token").states);
    assert_eq!(all.states, vec![4, 5, 6, 7]);
}

#[test]
fn caches_are_read_at_their_stride() {
    let rows: Vec<Vec<usize>> =
        minicpm(4, 8, 3).run_attention(1).into_iter().map(|r| r.keys).collect();
    assert_eq!(rows, vec![vec![0, 4], vec![2, 6]]);
    let heads: Vec<Vec<usize>> =
        olmo2(4, 8, 3).run_attention(1).into_iter().map(|r| r.keys).collect();
    assert_eq!(heads, vec![vec![0, 4], vec![2, 6]]);
}

#[test]
fn olmo2_heads_are_normed_one_by_one() {
    assert_eq!(Olmo2Forward::apply_qk_norm(12, 4), vec![0, 4, 8]);
    assert_eq!(Olmo2Forward::apply_qk_norm(7, 4), vec![0]);
    assert_eq!(Olmo2Forward::apply_qk_norm(2, 0), vec![0, 0]);
}

// ── Models with a shared configuration ───────────────────────────────────────

fn config(hidden: usize) -> ModelConfig {
    ModelConfig {
        hidden_size: hidden,
        intermediate_size: 16,
        num_layers: 1,
        num_attention_heads: 2,
        num_kv_heads: 1,
        head_dim: hidden / 2,
        vocab_size: 4,
        max_context_length: 8,
        ..ModelConfig::default()
    }
}

fn table() -> Vec<u32> {
    (0..32).collect()
}

#[test]
fn test_embed_output_length_differs_from_vocab_size() {
    let hidden_size: usize = 64;
    let vocab_size: usize = 256;
    assert_ne!(
        hidden_size, vocab_size,
        "test requires hidden_size != vocab_size"
    );
    let cfg = ModelConfig { hidden_size, vocab_size, ..config(64) };
    let embd = vec![0; vocab_size * hidden_size];
    let model = LlamaModel::new(cfg, embd, vec![], rms_norm(64), zero_linear(256, 64));
    let pass = model.embed(&vec![255], 0).expect("known token");
    assert_eq!(pass.states.len(), hidden_size);
    assert_eq!(model.hidden_size(), hidden_size);
    assert_eq!(model.vocab_size(), vocab_size);
    assert_ne!(model.hidden_size(), model.vocab_size());
}

fn command_r(logit_scale: f32) -> CommandRModel {
    CommandRModel::new(
        config(8),
        table(),
        vec![],
        rms_norm(8),
        zero_linear(4, 8),
        logit_scale.to_bits(),
    )
}

fn scaled(model: &CommandRModel, logits: &mut [f32]) {
    if model.scales_logits() {
        for v in logits.iter_mut() {
            *v *= f32::from_bits(model.logit_scale);
        }
    }
}

#[test]
fn test_logit_scale_applied() {
    let mut logits = [1.0f32, 2.0, -1.0, 0.0];
    scaled(&command_r(2.5), &mut logits);
    assert!((logits[0] - 2.5).abs() < 1e-6, "logits[0]={}", logits[0]);
    assert!((logits[1] - 5.0).abs() < 1e-6, "logits[1]={}", logits[1]);
    assert!((logits[2] - (-2.5)).abs() < 1e-6, "logits[2]={}", logits[2]);
    assert!(logits[3].abs() < 1e-6, "logits[3]={}", logits[3]);
}

#[test]
fn test_logit_scale_one_is_noop() {
    let mut logits = [1.0f32, 2.0, -1.0];
    let original = logits;
    scaled(&command_r(1.0), &mut logits);
    assert_eq!(logits, original, "scale=1.0 should not modify logits");
    assert!(!command_r(1.0 + f32::EPSILON).scales_logits());
    assert!(command_r(1.0 + 2.0 * f32::EPSILON).scales_logits());
    assert!(!command_r(1.0 - f32::EPSILON).scales_logits());
    assert!(command_r(1.0 - 1.5 * f32::EPSILON).scales_logits());
    assert!(!command_r(f32::NAN).scales_logits());
}

#[test]
fn embeddings_are_rows_of_the_table() {
    let model = command_r(1.0);
    assert_eq!(model.embed_token(2), Some((16..24).collect()));
    assert_eq!(model.embed_token(4), None);
    let pass = model.forward(&vec![3, 0], 5).expect("known tokens");
    assert_eq!(pass.states, (24..32).chain(0..8).collect::<Vec<u32>>());
    assert_eq!(pass.shape.order, Order::TokenByToken);
    assert_eq!(pass.shape.start, 5);
    assert!(model.forward(&vec![3, 4], 5).is_none());
}

fn stages(shape: &PassShape) -> Vec<Stage> {
    let mut out = Vec::new();
    let mut stage = shape.first();
    while !matches!(stage, Stage::Finish { .. }) {
        out.push(stage);
        stage = shape.after(stage);
    }
    out
}

#[test]
fn cut_sequences_take_the_same_states_and_stages() {
    let pass = |tokens: Vec<u32>, cached: usize| {
        begin_token_pass(&table(), 8, &tokens, 2, cached).expect("known tokens")
    };
    let whole = pass(vec![3, 0, 2], 5);
    let first = pass(vec![3, 0], 5);
    let second = pass(vec![2], 7);
    let mut states = first.states.clone();
    states.extend(second.states.clone());
    assert_eq!(whole.states, states);
    let mut expected = stages(&first.shape);
    for stage in stages(&second.shape) {
        expected.push(match stage {
            Stage::Attend { layer, token, position } => {
                Stage::Attend { layer, token: token + 2, position }
            }
            Stage::Feed { layer, token } => Stage::Feed { layer, token: token + 2 },
            other => other,
        });
    }
    assert_eq!(stages(&whole.shape), expected);
}

#[test]
fn the_scale_of_logits_touches_nothing_before_them() {
    let (a, b) = (command_r(0.5), command_r(1.0));
    let p = a.forward(&vec![1, 2], 0).expect("pass");
    let q = b.forward(&vec![1, 2], 0).expect("pass");
    assert_eq!(p.shape, q.shape);
    assert_eq!(p.states, q.states);
    for (x, y) in a.attention(3).iter().zip(b.attention(3)) {
        assert_eq!((x.query, &x.keys), (y.query, &y.keys));
    }
    assert!(a.scales_logits() && !b.scales_logits());
}

#[test]
fn windows_keep_the_newest_positions() {
    let cfg = ModelConfig { sliding_window: Some(3), swa_window: Some(3), ..config(8) };
    let model = MixtralModel::new(cfg, table(), vec![], rms_norm(8), table());
    let plan = model.attention(5);
    assert_eq!(plan.len(), 2);
    assert_eq!(plan[1].query, 4);
    assert_eq!(plan[1].keys, vec![12, 16, 20]);
    assert_eq!(model.swa_config(), Some((3, false)));
    let open = MixtralModel::new(config(8), table(), vec![], rms_norm(8), table());
    assert_eq!(open.attention(1)[0].keys, vec![0, 4]);
    assert_eq!(open.swa_config(), None);
    assert_eq!(open.logit_rows(), vec![0, 8, 16, 24]);
    let parts = open.project(&(0..8).collect());
    assert_eq!(parts.query.len(), 8);
    assert_eq!(parts.key, vec![0, 1, 2, 3]);
    assert_eq!(parts.value, vec![0, 1, 2, 3]);
}

#[test]
fn mixtral_forward_output_shape() {
    let mut cfg = config(8);
    cfg.architecture = "mixtral".to_string();
    cfg.num_kv_heads = 2;
    cfg.num_experts = 8;
    cfg.num_experts_used = 2;
    let vocab_size = cfg.vocab_size;
    let weights = vec![0.01f32.to_bits(); vocab_size * 8];
    let model = MixtralModel::new(cfg, weights.clone(), vec![], rms_norm(8), weights);
    let result = model.forward(&vec![0u32], 0);
    assert!(result.is_some(), "forward must succeed: {:?}", result);
    assert_eq!(model.logit_rows().len(), vocab_size, "logits length must equal vocab_size");
}

#[test]
fn gemma_ties_logits_to_embeddings() {
    let cfg = ModelConfig { swa_window: Some(2), swa_interleaved: true, ..config(8) };
    let tied = GemmaModel::new(cfg, table(), vec![], rms_norm(8), None, 0, F32_ONE);
    match tied.compute_logits() {
        LogitSource::Tied(rows) => assert_eq!(rows, vec![0, 8, 16, 24]),
        LogitSource::Projection => panic!("there is no projection"),
    }
    assert!(!tied.caps_attention());
    assert!(tied.caps_logits());
    assert_eq!(tied.swa_config(), Some((2, true)));
    let own = GemmaModel::new(config(8), table(), vec![], rms_norm(8), Some(zero_linear(4, 8)), 0, 0);
    assert!(matches!(own.compute_logits(), LogitSource::Projection));
}

#[test]
fn phi_rotates_part_of_a_head() {
    let model = PhiModel::new(config(8), table(), vec![], rms_norm(8), zero_linear(4, 8), 1);
    assert_eq!(model.rope_dims, 2);
    assert_eq!(model.rotations(7).expect("row").len(), 1);
    assert!(model.rotations(8).is_none());
    let fused: Vec<u32> = (0..16).collect();
    let parts = model.split_qkv(&fused);
    assert_eq!(parts.query.len(), 8);
    assert_eq!(parts.key, vec![8, 9, 10, 11]);
    assert_eq!(parts.value, vec![12, 13, 14, 15]);
}

// ── A small model, run on its plans ──────────────────────────────────────────

fn neox_config() -> ModelConfig {
    ModelConfig { num_kv_heads: 2, ..config(8) }
}

fn neox() -> GptNeoxModel {
    let w: Vec<u32> = (0..64).map(|i| (0.01f32 * (i % 7) as f32).to_bits()).collect();
    let layer = GptNeoxLayer {
        ln1: layer_norm(8),
        ln2: layer_norm(8),
        attn_q: w.clone(),
        attn_k: w.clone(),
        attn_v: w.clone(),
        attn_output: w.clone(),
        ffn_up: vec![0.01f32.to_bits(); 16 * 8],
        ffn_down: vec![0.01f32.to_bits(); 8 * 16],
    };
    let embd: Vec<u32> = (0..32).map(|i| (0.1f32 * i as f32).to_bits()).collect();
    GptNeoxModel::new(
        neox_config(),
        DEFAULT_PARTIAL_ROTARY_FACTOR,
        embd.clone(),
        vec![layer],
        layer_norm(8),
        embd,
    )
}

fn floats(b: &[u32]) -> Vec<f32> {
    b.iter().map(|b| f32::from_bits(*b)).collect()
}

fn normed(x: &[f32]) -> Vec<f32> {
    let mean: f32 = x.iter().sum::<f32>() / x.len() as f32;
    let var: f32 = x.iter().map(|v| (v - mean) * (v - mean)).sum::<f32>() / x.len() as f32;
    x.iter().map(|v| (v - mean) / (var + 1e-5).sqrt()).collect()
}

fn matvec(w: &Vec<u32>, out: usize, x: &[f32]) -> Vec<f32> {
    GptNeoxModel::gemv(w, out, x.len())
        .iter()
        .map(|s| w[*s..].iter().zip(x).map(|(w, x)| f32::from_bits(*w) * x).sum())
        .collect()
}

fn softmax(x: &mut [f32]) {
    let max = x.iter().copied().fold(f32::NEG_INFINITY, f32::max);
    let sum: f32 = x.iter().map(|v| (v - max).exp()).sum();
    for v in x.iter_mut() {
        *v = (*v - max).exp() / sum;
    }
}

/// Attention on the planned reads of one layer. Queries and keys are not rotated.
fn planned_attention(model: &GptNeoxModel, q: &[f32], keys: &[f32], values: &[f32], at: usize) -> Vec<f32> {
    let d = model.config.head_dim;
    let mut out = vec![0.0f32; q.len()];
    for reads in model.attention(at) {
        let mut scores: Vec<f32> = reads
            .keys
            .iter()
            .map(|k| (0..d).map(|i| q[reads.query + i] * keys[k + i]).sum::<f32>())
            .collect();
        softmax(&mut scores);
        for (k, s) in reads.keys.iter().zip(&scores) {
            for i in 0..d {
                out[reads.query + i] += s * values[k + i];
            }
        }
    }
    out
}

/// Attention by its definition.
fn defined_attention(q: &[f32], keys: &[f32], values: &[f32], heads: usize, d: usize, at: usize) -> Vec<f32> {
    let row = heads * d;
    let mut out = vec![0.0f32; q.len()];
    for h in 0..heads {
        let mut scores: Vec<f32> = (0..=at)
            .map(|p| (0..d).map(|i| q[h * d + i] * keys[p * row + h * d + i]).sum::<f32>())
            .collect();
        softmax(&mut scores);
        for p in 0..=at {
            for i in 0..d {
                out[h * d + i] += scores[p] * values[p * row + h * d + i];
            }
        }
    }
    out
}

fn run_neox(model: &GptNeoxModel, tokens: &Vec<u32>) -> Vec<f32> {
    let pass = model.forward(tokens, 0).expect("known tokens");
    let (mut keys, mut values) = (vec![], vec![]);
    let mut hidden = vec![];
    let mut stage = pass.shape.first();
    while !matches!(stage, Stage::Done) {
        match stage {
            Stage::Attend { layer, token, position } => {
                hidden = floats(&pass.states[token * 8..(token + 1) * 8]);
                let n = normed(&hidden);
                let l = &model.layers[layer];
                let q = matvec(&l.attn_q, 8, &n);
                keys.extend(matvec(&l.attn_k, 8, &n));
                values.extend(matvec(&l.attn_v, 8, &n));
                let a = planned_attention(model, &q, &keys, &values, position);
                assert_eq!(a, defined_attention(&q, &keys, &values, 2, 4, position));
                let a = matvec(&l.attn_output, 8, &a[..model.attention_width()]);
                let up = matvec(&l.ffn_up, 16, &n);
                let f = matvec(&l.ffn_down, 8, &up);
                for i in 0..8 {
                    hidden[i] += a[i] + f[i];
                }
            }
            Stage::Feed { .. } | Stage::Finish { .. } | Stage::Done => {}
        }
        stage = pass.shape.after(stage);
    }
    matvec(&model.output_weights, model.vocab_size(), &normed(&hidden))
}

#[test]
fn gptneox_networks_read_the_same_state() {
    let model = neox();
    let plan = model.layer_forward(0);
    assert_eq!(plan.network_input, NetworkInput::Entering);
    assert_eq!(plan.attention_norm.weight, model.layers[0].ln1.weight);
    assert_eq!(plan.network_norm.weight, model.layers[0].ln2.weight);
    assert_eq!(falcon(true).layer_forward(0).network_input(), NetworkInput::Entering);
    assert_eq!(falcon(false).layer_forward(0).network_input(), NetworkInput::Attended);
}

#[test]
fn models_without_key_heads_can_be_planned() {
    let mut model = neox();
    model.config.num_kv_heads = 0;
    let plan = model.attention(1);
    assert_eq!(plan.len(), model.config.num_attention_heads);
    assert_eq!(plan[0].keys, vec![0, 0]);
    model.config.num_attention_heads = 0;
    assert!(model.attention(1).is_empty());
}

#[test]
fn gptneox_parallel_residual_shape() {
    let model = neox();
    let logits = run_neox(&model, &vec![0, 3, 1]);
    assert_eq!(logits.len(), model.vocab_size());
    assert!(logits.iter().all(|v| v.is_finite()));
}

#[test]
fn gptneox_parallel_residual_deterministic() {
    let out1 = run_neox(&neox(), &vec![2u32]);
    let out2 = run_neox(&neox(), &vec![2u32]);
    for (a, b) in out1.iter().zip(out2.iter()) {
        assert!(
            (a - b).abs() < 1e-9,
            "gptneox forward must be deterministic: {a} != {b}"
        );
    }
}
