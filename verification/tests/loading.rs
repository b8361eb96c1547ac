//! Tensors of files: decoding, and loading of dense models.

use std::sync::Arc;

use oxillama_arch::command_r::load_command_r_from_gguf;
use oxillama_arch::common::linear::{LoadedLora, LoraAdapter};
use oxillama_arch::common::load::{
    load_dequant_tensor, load_embedding, load_optional, load_quant_linear,
};
use oxillama_arch::config::ModelConfig;
use oxillama_arch::error::{ArchError, GgufError, QuantError};
use oxillama_arch::gemma::load_gemma_from_gguf;
use oxillama_arch::gguf::{
    block_count, block_len, dequant_to_f32, run_kernel, GgufModel, KernelOutcome, TensorRecord,
    TensorStore, TensorType,
};
use oxillama_arch::llama::{load_llama_from_gguf, FfnVariant};
use oxillama_arch::llava::model::LlavaModel;
use oxillama_arch::llava_next::{ImageError, LlavaNextModel};
use oxillama_arch::metadata::{MetadataStore, MetadataValue};
use oxillama_arch::phi::{load_phi_from_gguf, rotary_factor};

fn record(dims: Vec<usize>, kind: TensorType, data: Vec<u8>) -> TensorRecord {
    TensorRecord::new(dims, kind, Some(data), KernelOutcome::Blocks(vec![])).expect("parts fit")
}

fn words(v: &[f32]) -> Vec<u8> {
    v.iter().flat_map(|x| x.to_le_bytes()).collect()
}

const Q: TensorType = TensorType::Blocks { id: 2, block_size: 4, block_bytes: 2 };

/// A kernel that repeats the first byte of a block, and fails on zero.
fn kernel(block: Vec<u8>, count: usize) -> Result<Vec<u32>, QuantError> {
    if block[0] == 0 {
        return Err(QuantError { message: "zero scale".to_string() });
    }
    Ok(vec![(block[0] as f32).to_bits(); count])
}

fn quantized(n: usize, data: Vec<u8>) -> TensorRecord {
    let blocks = run_kernel(n, 4, 2, &data, kernel);
    TensorRecord::new(vec![n], Q, Some(data), KernelOutcome::Blocks(blocks)).expect("parts fit")
}

#[test]
fn words_are_little_endian() {
    let t = record(vec![3], TensorType::F32, words(&[1.0, -2.5, 3.0]));
    let out = dequant_to_f32(&t).expect("decodes");
    assert_eq!(out, vec![1.0f32.to_bits(), (-2.5f32).to_bits(), 3.0f32.to_bits()]);
    assert_eq!(t.n_elements(), 3);
}

#[test]
fn half_words_are_widened() {
    let t = record(vec![2], TensorType::F16, vec![0x00, 0x3C, 0x00, 0xC0]);
    let out = dequant_to_f32(&t).expect("decodes");
    assert_eq!(out, vec![1.0f32.to_bits(), (-2.0f32).to_bits()]);
}

#[test]
fn blocks_are_decoded_in_order() {
    let t = quantized(6, vec![3, 0, 5, 0]);
    let out: Vec<f32> =
        dequant_to_f32(&t).expect("decodes").into_iter().map(f32::from_bits).collect();
    assert_eq!(out, vec![3.0, 3.0, 3.0, 3.0, 5.0, 5.0]);
    assert_eq!(block_count(6, 4), 2);
    assert_eq!(block_len(6, 4, 1), 2);
    assert_eq!(block_count(8, 4), 2);
}

#[test]
fn failing_blocks_fail_the_tensor() {
    match dequant_to_f32(&quantized(8, vec![3, 0, 0, 0])) {
        Err(ArchError::Quant(e)) => assert_eq!(e.message, "zero scale"),
        other => panic!("unexpected answer: {other:?}"),
    }
    let none = TensorRecord::new(
        vec![4],
        Q,
        Some(vec![1, 1]),
        KernelOutcome::Unsupported {
            format: "Q2".to_string(),
            error: QuantError { message: "no kernel for Q2".to_string() },
        },
    );
    match dequant_to_f32(&none.expect("parts fit")) {
        Err(ArchError::Quant(e)) => assert_eq!(e.message, "no kernel for Q2"),
        other => panic!("unexpected answer: {other:?}"),
    }
}

#[test]
fn parts_that_do_not_fit_are_no_tensor() {
    let huge = vec![usize::MAX, 2];
    assert!(TensorRecord::new(huge, TensorType::F32, None, KernelOutcome::Blocks(vec![])).is_none());
}

// ── Models ───────────────────────────────────────────────────────────────────

fn empty(architecture: &str) -> GgufModel {
    let mut m = GgufModel { metadata: MetadataStore::new(), tensors: TensorStore::new() };
    m.metadata.insert(
        "general.architecture".to_string(),
        MetadataValue::String(architecture.to_string()),
    );
    m
}

fn add(m: &mut GgufModel, name: &str, dims: &[usize]) {
    let n: usize = dims.iter().product();
    let data: Vec<f32> = (0..n).map(|i| i as f32).collect();
    m.tensors.insert(name.to_string(), record(dims.to_vec(), TensorType::F32, words(&data)));
}

fn config(architecture: &str) -> ModelConfig {
    ModelConfig {
        architecture: architecture.to_string(),
        hidden_size: 8,
        intermediate_size: 16,
        num_layers: 2,
        num_attention_heads: 2,
        num_kv_heads: 2,
        head_dim: 4,
        vocab_size: 4,
        max_context_length: 8,
        ..ModelConfig::default()
    }
}

fn dense(architecture: &str, parts: &[&str]) -> GgufModel {
    let mut m = empty(architecture);
    add(&mut m, "token_embd.weight", &[4, 8]);
    add(&mut m, "output_norm.weight", &[8]);
    add(&mut m, "output.weight", &[4, 8]);
    for i in 0..2 {
        for name in ["attn_norm", "ffn_norm"] {
            add(&mut m, &format!("blk.{i}.{name}.weight"), &[8]);
        }
        for name in parts {
            add(&mut m, &format!("blk.{i}.{name}.weight"), &[8, 8]);
        }
    }
    m
}

const SPLIT: [&str; 7] =
    ["attn_q", "attn_k", "attn_v", "attn_output", "ffn_gate", "ffn_up", "ffn_down"];

/// The same file without one tensor.
fn without(m: &GgufModel, architecture: &str, parts: &[&str], left_out: &str) -> GgufModel {
    let full = dense(architecture, parts);
    let mut out = empty(architecture);
    let mut names = vec![
        "token_embd.weight".to_string(),
        "output_norm.weight".to_string(),
        "output.weight".to_string(),
    ];
    for i in 0..2 {
        for name in parts.iter().chain(["attn_norm", "ffn_norm"].iter()) {
            names.push(format!("blk.{i}.{name}.weight"));
        }
    }
    for name in names {
        if name != left_out {
            let dims = full.tensors.get(&name).expect("listed").dimensions().clone();
            assert!(m.tensors.contains(&name));
            add(&mut out, &name, &dims);
        }
    }
    out
}

#[test]
fn llama_is_loaded_by_name() {
    let m = dense("llama", &SPLIT);
    let model = load_llama_from_gguf(&m, &config("llama")).expect("complete file");
    assert_eq!(model.layers.len(), 2);
    assert_eq!(model.token_embd[9], 9.0f32.to_bits());
    assert_eq!(model.layers[1].attn_q.out_features, 8);
    assert!(matches!(model.layers[0].ffn, FfnVariant::Dense(_)));
    assert_eq!(model.attention(1)[1].keys, vec![4, 12]);
    assert_eq!(model.rope().max_seq_len(), 8);
}

#[test]
fn llama_needs_its_tensors() {
    let full = dense("llama", &SPLIT);
    let m = without(&full, "llama", &SPLIT, "blk.1.ffn_up.weight");
    match load_llama_from_gguf(&m, &config("llama")) {
        Err(ArchError::MissingTensor { name }) => assert_eq!(name, "blk.1.ffn_up.weight"),
        other => panic!("unexpected answer: {:?}", other.err()),
    }
}

#[test]
fn llama_with_experts_has_stacks() {
    let mut m = dense("llama", &SPLIT[..4]);
    for i in 0..2 {
        add(&mut m, &format!("blk.{i}.ffn_gate_inp.weight"), &[3, 8]);
        add(&mut m, &format!("blk.{i}.ffn_gate_exps.weight"), &[3, 16, 8]);
        add(&mut m, &format!("blk.{i}.ffn_up_exps.weight"), &[3, 16, 8]);
        add(&mut m, &format!("blk.{i}.ffn_down_exps.weight"), &[3, 8, 16]);
    }
    let cfg = ModelConfig { num_experts: 3, num_experts_used: 2, ..config("llama") };
    let model = load_llama_from_gguf(&m, &cfg).expect("complete file");
    match &model.layers[1].ffn {
        FfnVariant::Moe(moe) => {
            assert_eq!(moe.experts.len(), 3);
            assert_eq!(moe.top_k, 2);
            assert_eq!(moe.experts[2].gate[0], 256.0f32.to_bits());
            assert!(moe.validate().is_ok());
        }
        FfnVariant::Dense(_) => panic!("layers have experts"),
    }
}

fn adapters(name: &str) -> LoadedLora {
    let mut file = LoadedLora::new();
    let adapter = LoraAdapter { a: vec![], b: vec![], rank: 0, scale: 7 };
    file.insert(name.to_string(), Arc::new(adapter));
    file
}

#[test]
fn corrections_reach_every_projection() {
    let mut llama =
        load_llama_from_gguf(&dense("llama", &SPLIT), &config("llama")).expect("complete file");
    llama.apply_lora(&adapters("output.weight")).expect("applies");
    assert_eq!(llama.output.lora.as_ref().expect("patched").scale, 7);
    llama.apply_lora(&adapters("blk.1.attn_v.weight")).expect("applies");
    assert!(llama.layers[1].attn_v.lora.is_some());
    assert!(llama.layers[0].attn_v.lora.is_none());
    let mut command_r =
        load_command_r_from_gguf(&dense("command-r", &SPLIT), &config("command-r")).expect("file");
    command_r.apply_lora(&adapters("blk.0.ffn_down.weight")).expect("applies");
    assert!(command_r.layers[0].ffn_down.lora.is_some());
    assert!(command_r.layers[1].ffn_down.lora.is_none());
}

#[test]
fn command_r_norms_heads_where_it_can() {
    let mut m = dense("command-r", &SPLIT);
    add(&mut m, "blk.1.attn_q_norm.weight", &[4]);
    let model = load_command_r_from_gguf(&m, &config("command-r")).expect("complete file");
    assert!(model.layers[0].attn_q_norm.is_none());
    assert_eq!(model.layers[1].attn_q_norm.as_ref().expect("norm").weight.len(), 4);
    assert!(model.layers[1].attn_k_norm.is_none());
}

#[test]
fn command_r_needs_what_llama_needs() {
    let full = dense("llama", &SPLIT);
    assert!(load_llama_from_gguf(&full, &config("llama")).is_ok());
    assert!(load_command_r_from_gguf(&full, &config("llama")).is_ok());
    for left_out in ["blk.0.attn_k.weight", "blk.1.ffn_norm.weight", "output_norm.weight"] {
        let m = without(&full, "llama", &SPLIT, left_out);
        let a = load_llama_from_gguf(&m, &config("llama")).err().expect("incomplete file");
        let b = load_command_r_from_gguf(&m, &config("llama")).err().expect("incomplete file");
        assert_eq!(format!("{a:?}"), format!("{b:?}"));
    }
}

#[test]
fn gemma_alternates_windows() {
    let m = dense("gemma", &SPLIT);
    let cfg = ModelConfig {
        sliding_window: Some(1),
        swa_window: Some(1),
        swa_interleaved: true,
        ..config("gemma")
    };
    let model = load_gemma_from_gguf(&m, &cfg).expect("complete file");
    assert_eq!(model.layers.len(), 2);
    let spans: Vec<usize> = (0..2).map(|l| model.attention(l, 3)[0].keys.len()).collect();
    assert!(spans.contains(&1) && spans.contains(&4), "{spans:?}");
    assert!(model.output.is_some());
}

#[test]
fn phi_reads_its_rotary_factor() {
    let mut m = dense("phi3", &["attn_qkv", "attn_output", "ffn_gate", "ffn_up", "ffn_down"]);
    let cfg = config("phi3");
    assert_eq!(rotary_factor(&m.metadata, &cfg), 0.5f32.to_bits());
    m.metadata.insert(
        "phi3.rope.partial_rotary_factor".to_string(),
        MetadataValue::Float32(0.75f32.to_bits()),
    );
    assert_eq!(rotary_factor(&m.metadata, &cfg), 0.75f32.to_bits());
    let model = load_phi_from_gguf(&m, &cfg, 3).expect("complete file");
    assert_eq!(model.rope_dims, 3);
    assert_eq!(model.layers.len(), 2);
}

#[test]
fn images_pass_encoder_and_projector() {
    let mut m = dense("llama", &SPLIT);
    assert!(LlavaModel::load(&m, &config("llama")).is_err(), "a projector is needed");
    add(&mut m, "mm.0.weight", &[8, 1024]);
    add(&mut m, "mm.2.weight", &[8, 8]);
    let model = LlavaModel::load(&m, &config("llama")).expect("complete file");
    assert_eq!(model.clip_hidden_size, 1024);
    assert_eq!(model.llm_hidden_size, 8);
    assert_eq!(model.vision_encoder.num_patches(), 576);
    assert!(model.encode_image(&vec![0; 5]).is_err());
    assert!(model.forward(&vec![3], 0).is_some());
    assert!(model.embed(&vec![4], 0).is_none());
    let next = LlavaNextModel::load(&m, &config("llama")).expect("complete file");
    assert_eq!(next.tiler().tile_size, 336);
    assert_eq!(next.clip_hidden_size(), 1024);
    let image = vec![0; 3 * 336 * 336];
    match next.encode_image(&vec![image.clone(), vec![0; 5]], &image) {
        Err(ImageError::Tile { index, .. }) => assert_eq!(index, 1),
        other => panic!("unexpected answer: {:?}", other.err()),
    }
    match next.encode_image(&vec![image.clone()], &vec![]) {
        Err(ImageError::Thumbnail { .. }) => {}
        other => panic!("unexpected answer: {:?}", other.err()),
    }
    let input = next.encode_image(&vec![image.clone(), image.clone()], &image).expect("encodes");
    assert_eq!(input.tiles.len(), 2);
    assert_eq!(input.thumbnail.patches.len(), 576);
    assert!(next.check_size(0, 5).is_err());
    assert!(next.check_size(5, 5).is_ok());
}

#[test]
fn images_keep_the_places_of_their_positions() {
    let mut m = dense("llama", &SPLIT);
    add(&mut m, "mm.0.weight", &[8, 1024]);
    add(&mut m, "mm.2.weight", &[8, 8]);
    let image = vec![0; 3 * 336 * 336];
    let mut expected = vec![Some(0), Some(1024), Some(2048)];
    expected.resize(577, None);
    let mut model = LlavaModel::load(&m, &config("llama")).expect("complete file");
    assert_eq!(model.encode_image(&image).expect("encodes").positions, vec![None; 577]);
    model.vision_encoder.position_embd = vec![0; 3 * 1024 + 5];
    assert_eq!(model.encode_image(&image).expect("encodes").positions, expected);
    let mut next = LlavaNextModel::load(&m, &config("llama")).expect("complete file");
    next.vision_encoder.position_embd = vec![0; 3 * 1024 + 5];
    let input = next.encode_image(&vec![image.clone()], &image).expect("encodes");
    assert_eq!(input.tiles[0].positions, expected);
    assert_eq!(input.thumbnail.positions, expected);
}

#[test]
fn single_tensors_are_loaded() {
    let mut m = empty("llama");
    add(&mut m, "a", &[2, 3]);
    assert_eq!(load_dequant_tensor(&m, "a").expect("values").len(), 6);
    assert_eq!(load_optional(&m, "b"), Vec::<u32>::new());
    let l = load_quant_linear(&m, "a").expect("bytes");
    assert_eq!((l.out_features, l.in_features), (2, 3));
    match load_dequant_tensor(&m, "b") {
        Err(ArchError::MissingTensor { name }) => assert_eq!(name, "b"),
        other => panic!("unexpected answer: {other:?}"),
    }
    match load_embedding(&m, "b") {
        Err(ArchError::Gguf(GgufError::TensorNotFound { name })) => assert_eq!(name, "b"),
        other => panic!("unexpected answer: {other:?}"),
    }
    let listed =
        TensorRecord::new(vec![1], TensorType::F32, None, KernelOutcome::Blocks(vec![]));
    m.tensors.insert("c".to_string(), listed.expect("parts fit"));
    match load_dequant_tensor(&m, "c") {
        Err(ArchError::Gguf(GgufError::TensorDataUnavailable { name })) => assert_eq!(name, "c"),
        other => panic!("unexpected answer: {other:?}"),
    }
}
