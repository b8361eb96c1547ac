//! Mamba2: convolution, state and loading.

use oxillama_arch::bits::{F32_1E_MINUS_5, F32_ONE};
use oxillama_arch::common::norm::RmsNorm;
use oxillama_arch::error::ArchError;
use oxillama_arch::gguf::{GgufModel, KernelOutcome, TensorRecord, TensorStore, TensorType};
use oxillama_arch::mamba2::{
    block_failed, build_mamba2_model, conv1d_channel, conv1d_fits, conv1d_taps,
    embed_block_failed, load_mamba2_from_gguf, make_zero_mamba2_layer, scan_channel,
    selective_scan_sequential, ConvTerm,
    Mamba2Config, Mamba2Model, ScanTerm, Tap,
};
use oxillama_arch::metadata::{MetadataStore, MetadataValue};

/// Runs the convolution by the plan of each channel.
fn conv1d_depthwise(
    x: &[f32],
    weight: &[f32],
    bias: &[f32],
    seq_len: usize,
    d_inner: usize,
    d_conv: usize,
) -> Vec<f32> {
    assert!(conv1d_fits(x.len(), weight.len(), bias.len(), seq_len, d_inner, d_conv));
    let mut out = vec![0.0f32; seq_len * d_inner];
    for t in 0..seq_len {
        for i in 0..d_inner {
            let plan = conv1d_channel(t, i, d_inner, d_conv);
            let mut acc = bias[i];
            for term in &plan.terms {
                acc += weight[term.weight] * x[term.x];
            }
            out[plan.output] = acc / (1.0 + (-acc).exp());
        }
    }
    out
}

/// The convolution is the sum that defines it:
/// `out[t, i] = silu(bias[i] + sum over k of weight[i, k] * x[t - (d_conv - 1) + k, i])`,
/// where inputs before the first token are zero.
#[test]
fn conv1d_depthwise_matches_reference() {
    let seq_len = 4;
    let d_inner = 2;
    let d_conv = 3;

    // x[t, i] = (t * d_inner + i) as f32 * 0.1 (small values)
    // x layout: [x[0,0], x[0,1], x[1,0], x[1,1], x[2,0], x[2,1], x[3,0], x[3,1]]
    let x: Vec<f32> = (0..seq_len * d_inner).map(|idx| idx as f32 * 0.1).collect();

    // weight[i, k] = 1.0 / (d_conv as f32) so each kernel sums to 1.
    let weight: Vec<f32> = vec![1.0 / d_conv as f32; d_inner * d_conv];
    // bias = zero
    let bias: Vec<f32> = vec![0.0f32; d_inner];

    // Scalar reference.
    let mut reference = vec![0.0f32; seq_len * d_inner];
    for t in 0..seq_len {
        for i in 0..d_inner {
            let mut acc = bias[i];
            for k in 0..d_conv {
                let src_signed = t as i64 - (d_conv as i64 - 1) + k as i64;
                if src_signed >= 0 {
                    let src = src_signed as usize;
                    acc += weight[i * d_conv + k] * x[src * d_inner + i];
                }
            }
            let silu = acc / (1.0 + (-acc).exp());
            reference[t * d_inner + i] = silu;
        }
    }

    let result = conv1d_depthwise(&x, &weight, &bias, seq_len, d_inner, d_conv);

    assert_eq!(result.len(), reference.len());
    for (idx, (got, expected)) in result.iter().zip(reference.iter()).enumerate() {
        assert!(
            (got - expected).abs() < 1e-6,
            "result[{idx}] = {got} != reference[{idx}] = {expected}"
        );
    }
}

/// Left-padding (zero) for positions before the sequence start is correct.
#[test]
fn conv1d_causal_padding_is_zero() {
    let seq_len = 1;
    let d_inner = 1;
    let d_conv = 3;

    // Single token: receptive field covers positions -2, -1, 0 of the input.
    // Positions -2 and -1 are zero (left-pad). Position 0 is x[0, 0].
    let x = vec![1.0f32];
    // Each kernel element = 1.0 so raw = 0 + 0 + 1*x[0,0] = 1.0.
    let weight = vec![1.0f32; d_inner * d_conv];
    let bias = vec![0.0f32; d_inner];

    let result = conv1d_depthwise(&x, &weight, &bias, seq_len, d_inner, d_conv);

    // raw = 1.0; silu(1.0) = 1.0 * sigmoid(1.0)
    let expected = 1.0f32 / (1.0 + (-1.0f32).exp());
    assert!(
        (result[0] - expected).abs() < 1e-6,
        "result={}, expected={expected}",
        result[0]
    );
}

/// Bias is correctly added before SiLU.
#[test]
fn conv1d_bias_applied_before_silu() {
    let seq_len = 1;
    let d_inner = 1;
    let d_conv = 1;

    // With zero input and kernel, raw = bias.
    let x = vec![0.0f32];
    let weight = vec![0.0f32; d_inner * d_conv];
    let bias = vec![2.0f32];

    let result = conv1d_depthwise(&x, &weight, &bias, seq_len, d_inner, d_conv);

    // raw = 2.0; silu(2.0) = 2 * sigmoid(2) ≈ 1.761
    let silu_2 = 2.0f32 / (1.0 + (-2.0f32).exp());
    assert!(
        (result[0] - silu_2).abs() < 1e-5,
        "bias must be applied before SiLU: got {}, expected {silu_2}",
        result[0]
    );
}

/// Zero input and zero bias → zero output (SiLU(0) = 0).
#[test]
fn conv1d_zero_input_zero_output() {
    let seq_len = 5;
    let d_inner = 3;
    let d_conv = 4;
    let x = vec![0.0f32; seq_len * d_inner];
    let weight = vec![0.5f32; d_inner * d_conv];
    let bias = vec![0.0f32; d_inner];
    let result = conv1d_depthwise(&x, &weight, &bias, seq_len, d_inner, d_conv);
    // SiLU(0) = 0, so all outputs should be zero.
    for (i, &v) in result.iter().enumerate() {
        assert!(
            v.abs() < 1e-7,
            "result[{i}] = {v} should be ~0 for zero input"
        );
    }
}

fn tiny_config() -> Mamba2Config {
    Mamba2Config {
        d_model: 16,
        n_layer: 1,
        d_state: 8,
        d_conv: 4,
        expand: 1,
        vocab_size: 64,
        max_seq_len: 256,
    }
}

fn build_tiny_model() -> Mamba2Model {
    let cfg = tiny_config();
    let vocab = cfg.vocab_size;
    let d_model = cfg.d_model;

    let token_embd = vec![0; vocab * d_model];
    let layers = (0..cfg.n_layer)
        .map(|_| make_zero_mamba2_layer(&cfg))
        .collect();
    let output_norm = RmsNorm::new(vec![F32_ONE; d_model], F32_1E_MINUS_5);
    let lm_head = vec![0; vocab * d_model];

    build_mamba2_model(cfg, token_embd, layers, output_norm, lm_head)
}

/// Steps the state over the tokens of a pass.
fn run(model: &mut Mamba2Model, tokens: &Vec<u32>) {
    let run = model.forward(tokens).expect("forward");
    for _ in 0..run.pass.shape.tokens {
        model.advance();
    }
    assert!(run.refusal.is_none());
}

#[test]
fn mamba2_empty_tokens_return_an_error() {
    let model = build_tiny_model();
    let result = model.forward(&vec![]);
    assert!(result.is_err(), "empty token sequence must return an error");
}

#[test]
fn mamba2_embed_empty_returns_error() {
    let model = build_tiny_model();
    let result = model.embed(&vec![]);
    assert!(result.is_err(), "embed with empty tokens must return an error");
}

#[test]
fn state_position_advances() {
    let mut model = build_tiny_model();
    run(&mut model, &vec![1u32, 2, 3]);
    assert_eq!(
        model.state.step_position(),
        3,
        "state position must equal seq_len after forward"
    );
    model.reset_state();
    assert_eq!(
        model.state.step_position(),
        0,
        "state position must be 0 after reset"
    );
}

#[test]
fn allocated_states_are_zero() {
    let model = build_tiny_model();
    let state = model.allocate_sequence_state(77);
    assert_eq!((state.step_position(), state.max_seq_len), (0, 77));
    assert_eq!(state.layers.len(), model.config.n_layer);
    let size = model.config.d_state * model.config.d_inner();
    assert!(state.layers.iter().all(|l| l.len() == size && l.iter().all(|b| *b == 0)));
}

#[test]
fn mamba2_embed_returns_correct_size() {
    let model = build_tiny_model();
    let run = model.embed(&vec![1u32]).expect("embed must succeed");
    assert_eq!(
        run.pass.states.len(),
        model.config.d_model,
        "embed() must return d_model={} elements",
        model.config.d_model,
    );
}

#[test]
fn mamba2_embed_shorter_than_forward() {
    // embed() gives d_model elements; forward() gives vocab_size elements.
    let mut model = build_tiny_model();
    let embed = model.embed(&vec![1u32]).expect("embed");
    model.reset_state();
    let forward = model.forward(&vec![1u32]).expect("forward");
    assert_eq!(embed.pass.shape, forward.pass.shape);
    assert_eq!(embed.pass.states, forward.pass.states);
    let embed_out = embed.pass.states.len();
    let fwd_out = model.logit_rows().len();
    assert_eq!(embed_out, model.config.d_model);
    assert_eq!(fwd_out, model.config.vocab_size);
    assert!(embed_out < fwd_out, "d_model must be smaller than vocab_size in tiny config");
}

#[test]
fn convolutions_stay_in_their_channel() {
    let plan = conv1d_channel(2, 1, 4, 3);
    assert_eq!(plan.output, 9);
    assert_eq!(
        plan.terms,
        vec![
            ConvTerm { weight: 3, x: 1 },
            ConvTerm { weight: 4, x: 5 },
            ConvTerm { weight: 5, x: 9 },
        ]
    );
    assert_eq!(conv1d_channel(0, 3, 4, 3).terms, vec![ConvTerm { weight: 11, x: 3 }]);
    assert!(conv1d_fits(12, 12, 4, 3, 4, 3));
    assert!(!conv1d_fits(13, 12, 4, 3, 4, 3));
    assert!(!conv1d_fits(12, 13, 4, 3, 4, 3));
    assert!(!conv1d_fits(12, 12, 5, 3, 4, 3));
}

#[test]
fn scans_keep_their_own_states() {
    let plan = scan_channel(2, 1, 4, 3);
    assert_eq!(plan.place, 9);
    assert_eq!(
        plan.terms,
        vec![
            ScanTerm { state: 1, factor: 6 },
            ScanTerm { state: 5, factor: 7 },
            ScanTerm { state: 9, factor: 8 },
        ]
    );
    let mut all: Vec<usize> =
        (0..4).flat_map(|i| scan_channel(0, i, 4, 3).terms).map(|t| t.state).collect();
    all.sort();
    assert_eq!(all, (0..12).collect::<Vec<usize>>());
}

#[test]
fn sequences_are_scanned_token_by_token() {
    let whole = selective_scan_sequential(3, 2, 2);
    let places: Vec<(usize, usize)> = whole.iter().map(|s| (s.place, s.channel)).collect();
    assert_eq!(places, vec![(0, 0), (1, 1), (2, 0), (3, 1), (4, 0), (5, 1)]);
    let (first, second) = (selective_scan_sequential(1, 2, 2), selective_scan_sequential(2, 2, 2));
    assert_eq!(whole.len(), first.len() + second.len());
    assert_eq!(whole[1].terms, first[1].terms);
    for (a, b) in whole[2..].iter().zip(&second) {
        assert_eq!(a.place, b.place + 2);
        for (x, y) in a.terms.iter().zip(&b.terms) {
            assert_eq!((x.state, x.factor), (y.state, y.factor + 2));
        }
    }
    assert!(selective_scan_sequential(3, 0, 2).is_empty());
}

#[test]
fn tokens_before_an_unknown_one_are_run() {
    let model = build_tiny_model();
    let run = model.forward(&vec![1, 2, 64, 3]).expect("begins");
    assert_eq!(run.pass.shape.tokens, 2);
    assert!(run.refusal.is_some());
}

#[test]
fn taps_end_at_the_token() {
    assert_eq!(conv1d_taps(0, 3), vec![Tap { entry: 2, token: 0 }]);
    assert_eq!(
        conv1d_taps(5, 3),
        vec![
            Tap { entry: 0, token: 3 },
            Tap { entry: 1, token: 4 },
            Tap { entry: 2, token: 5 },
        ]
    );
    assert!(conv1d_taps(5, 0).is_empty());
}

#[test]
fn gating_values_come_first() {
    let model = build_tiny_model();
    let fused: Vec<u32> = (0..32).collect();
    let (a, b) = model.split_gate(&fused);
    assert_eq!(a, fused[..16].to_vec());
    assert_eq!(b, fused[16..].to_vec());
}

#[test]
fn failures_of_blocks_are_named() {
    for e in [block_failed(2, "bad"), embed_block_failed(2, "bad")] {
        match e {
            ArchError::ForwardPassError { layer, message } => {
                assert_eq!(layer, 2);
                assert!(message.contains("bad"));
            }
            other => panic!("unexpected error: {other:?}"),
        }
    }
}

fn add(model: &mut GgufModel, name: &str, dims: &[usize]) {
    let n: usize = dims.iter().product();
    let record = TensorRecord::new(
        dims.to_vec(),
        TensorType::F32,
        Some(vec![0u8; 4 * n]),
        KernelOutcome::Blocks(vec![]),
    );
    model.tensors.insert(name.to_string(), record.expect("dimensions fit"));
}

/// One layer of size 16 and a vocabulary of 256.
fn mamba2_file() -> GgufModel {
    let mut m = GgufModel { metadata: MetadataStore::new(), tensors: TensorStore::new() };
    for (key, value) in [
        ("mamba2.d_model", 16),
        ("mamba2.n_layer", 1),
        ("mamba2.d_state", 8),
        ("mamba2.d_conv", 4),
        ("mamba2.expand", 1),
        ("mamba2.vocab_size", 256),
        ("mamba2.context_length", 64),
    ] {
        m.metadata.insert(key.to_string(), MetadataValue::Uint32(value));
    }
    let inner = Mamba2Config::from_metadata(&m.metadata).d_inner();
    add(&mut m, "token_embd.weight", &[256, 16]);
    add(&mut m, "output_norm.weight", &[16]);
    add(&mut m, "blk.0.attn_norm.weight", &[16]);
    add(&mut m, "blk.0.ssm_in.weight", &[2 * inner, 16]);
    add(&mut m, "blk.0.ssm_conv1d.weight", &[inner, 4]);
    add(&mut m, "blk.0.ssm_B.weight", &[8, inner]);
    add(&mut m, "blk.0.ssm_C.weight", &[8, inner]);
    add(&mut m, "blk.0.ssm_dt.weight", &[inner, inner]);
    add(&mut m, "blk.0.ssm_A_log", &[inner, 8]);
    add(&mut m, "blk.0.ssm_D", &[inner]);
    add(&mut m, "blk.0.ssm_out.weight", &[16, inner]);
    m
}

#[test]
fn mamba2_loader_round_trip() {
    let model = load_mamba2_from_gguf(&mamba2_file()).expect("load_mamba2_from_gguf must succeed");
    assert_eq!(model.config.d_model, 16, "d_model");
    assert_eq!(model.config.vocab_size, 256, "vocab_size");
    assert_eq!(model.config.n_layer, 1, "n_layer");
    assert_eq!(model.lm_head, model.token_embd, "tied output");
    let run = model.forward(&vec![1u32]).expect("forward after load");
    assert!(run.refusal.is_none());
    assert_eq!(model.vocab_size(), 256, "logit count == vocab_size");
    let run = model.embed(&vec![0u32]).expect("embed after load");
    assert_eq!(run.pass.states.len(), 16, "embed len == d_model");
}

#[test]
fn mamba2_loader_checks_lengths() {
    let mut m = mamba2_file();
    add(&mut m, "output.weight", &[255, 16]);
    assert!(load_mamba2_from_gguf(&m).is_err());
    let mut m = mamba2_file();
    add(&mut m, "blk.0.ssm_in.weight", &[3, 16]);
    assert!(load_mamba2_from_gguf(&m).is_err());
}
