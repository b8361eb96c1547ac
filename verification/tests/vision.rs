//! Images: patches, projection and tiles.

use oxillama_arch::common::linear::RowRead;
use oxillama_arch::error::ArchError;
use oxillama_arch::gguf::{GgufModel, TensorStore};
use oxillama_arch::llava::clip::{ClipEncoder, ClipEncoderLayer, ClipPart};
use oxillama_arch::llava::model::{load_projector, load_vision};
use oxillama_arch::llava::projector::MmProjector;
use oxillama_arch::llava_next::{
    parse_tiler_config, thumbnail_failed, tile_failed, AnyresTileConfig,
};
use oxillama_arch::metadata::{MetadataStore, MetadataValue};

fn f(v: f32) -> u32 {
    v.to_bits()
}

fn gelu(x: f32) -> f32 {
    0.5 * x * (1.0 + (0.797_884_6 * (x + 0.044_715 * x * x * x)).tanh())
}

/// Runs the projector on its plan.
fn run_projector(p: &MmProjector, input: &Vec<u32>) -> Result<Vec<f32>, ArchError> {
    let patches = p.project(input)?;
    let mut out = Vec::new();
    for patch in &patches {
        let x: Vec<f32> = patch.iter().map(|b| f32::from_bits(*b)).collect();
        let layer = |w: &Vec<u32>, plan: &Vec<RowRead>, x: &Vec<f32>| {
            plan.iter()
                .map(|r| {
                    let s: f32 = match r.start {
                        Some(s) => w[s..].iter().zip(x).map(|(w, x)| f32::from_bits(*w) * x).sum(),
                        None => 0.0,
                    };
                    s + f32::from_bits(r.bias)
                })
                .collect::<Vec<f32>>()
        };
        let hidden: Vec<f32> =
            layer(&p.fc1_weight, &p.first_layer(), &x).into_iter().map(gelu).collect();
        out.extend(layer(&p.fc2_weight, &p.second_layer(), &hidden));
    }
    Ok(out)
}

#[test]
fn test_mm_projector_shape_output() {
    // fc1: [8, 4] maps 4-dim clip to 8-dim hidden
    // fc2: [4, 8] maps 8-dim hidden back to 4-dim llm
    let proj = MmProjector {
        fc1_weight: vec![f(1.0); 8 * 4],
        fc1_bias: vec![f(0.0); 8],
        fc2_weight: vec![f(1.0); 4 * 8],
        fc2_bias: vec![f(0.0); 4],
        clip_hidden_size: 4,
        mm_hidden_size: 8,
        llm_hidden_size: 4,
    };
    let input = vec![f(1.0); 4]; // 1 patch
    let output = run_projector(&proj, &input).expect("project should succeed");
    assert_eq!(
        output.len(),
        4,
        "output must be [num_patches * llm_hidden_size]"
    );
}

#[test]
fn test_mm_projector_two_patches() {
    // 2 patches of clip_hidden_size=4 → 2 * llm_hidden_size=4 = 8 elements
    let proj = MmProjector {
        fc1_weight: vec![f(0.1); 8 * 4],
        fc1_bias: vec![f(0.0); 8],
        fc2_weight: vec![f(0.1); 4 * 8],
        fc2_bias: vec![f(0.0); 4],
        clip_hidden_size: 4,
        mm_hidden_size: 8,
        llm_hidden_size: 4,
    };
    let input = vec![f(1.0); 8]; // 2 patches × 4 dims
    let output = run_projector(&proj, &input).expect("two-patch project");
    assert_eq!(output.len(), 8, "2 patches × llm_hidden=4");
}

#[test]
fn test_mm_projector_wrong_input_size_errors() {
    let proj = MmProjector {
        fc1_weight: vec![f(0.0); 8],
        fc1_bias: vec![f(0.0); 2],
        fc2_weight: vec![f(0.0); 8],
        fc2_bias: vec![f(0.0); 4],
        clip_hidden_size: 4,
        mm_hidden_size: 2,
        llm_hidden_size: 4,
    };
    // 3 elements is not divisible by clip_hidden_size=4
    let input = vec![f(1.0); 3];
    assert!(
        run_projector(&proj, &input).is_err(),
        "must error on bad input size"
    );
}

#[test]
fn test_mm_projector_zero_clip_hidden_errors() {
    let proj = MmProjector {
        fc1_weight: vec![],
        fc1_bias: vec![],
        fc2_weight: vec![],
        fc2_bias: vec![],
        clip_hidden_size: 0,
        mm_hidden_size: 4,
        llm_hidden_size: 4,
    };
    let input = vec![f(1.0); 4];
    assert!(
        run_projector(&proj, &input).is_err(),
        "zero clip_hidden_size must error"
    );
}

#[test]
fn test_mm_projector_gelu_output_is_nonnegative_for_positive_input() {
    // GeLU(x) ≈ x for large positive x.
    // With all-ones weights and positive input, output should be positive.
    let proj = MmProjector {
        fc1_weight: vec![f(1.0); 2 * 2],
        fc1_bias: vec![f(0.0); 2],
        fc2_weight: vec![f(1.0); 2 * 2],
        fc2_bias: vec![f(0.0); 2],
        clip_hidden_size: 2,
        mm_hidden_size: 2,
        llm_hidden_size: 2,
    };
    let input = vec![f(1.0), f(1.0)];
    let output = run_projector(&proj, &input).expect("project ok");
    for v in &output {
        assert!(
            *v > 0.0,
            "all-positive input through GeLU should stay positive"
        );
    }
}

#[test]
fn test_clip_encoder_num_patches() {
    let enc = ClipEncoder {
        patch_embd_weight: vec![],
        patch_embd_bias: vec![],
        position_embd: vec![],
        pre_ln_weight: vec![],
        pre_ln_bias: vec![],
        post_ln_weight: vec![],
        post_ln_bias: vec![],
        layers: vec![],
        hidden_size: 1024,
        num_heads: 16,
        patch_size: 14,
        image_size: 336, // LLaVA-1.5 default
    };
    // (336/14)^2 = 24^2 = 576 patches
    assert_eq!(enc.num_patches(), 576, "LLaVA-1.5 should have 576 patches");
}

#[test]
fn test_clip_encoder_zero_patch_size_errors() {
    // patch_size=0 is an invalid configuration — must return ArchError::InvalidConfig.
    let enc = ClipEncoder {
        patch_embd_weight: vec![],
        patch_embd_bias: vec![],
        position_embd: vec![],
        pre_ln_weight: vec![],
        pre_ln_bias: vec![],
        post_ln_weight: vec![],
        post_ln_bias: vec![],
        layers: vec![],
        hidden_size: 64,
        num_heads: 4,
        patch_size: 0, // invalid
        image_size: 336,
    };
    // num_patches() is 0 for zero patch_size (no-panic, just zero)
    assert_eq!(enc.num_patches(), 0);
    // But encode() must return Err for zero patch_size
    let pixels = vec![f(0.0); 3];
    assert!(
        enc.encode(&pixels).is_err(),
        "zero patch_size must return Err from encode()"
    );
}

/// Passing wrong-length pixel array must return Err(ArchError::InvalidShape).
#[test]
fn test_clip_encode_wrong_pixel_size_errors() {
    let hidden_size = 8usize;
    let patch_size = 14usize;
    let image_size = 28usize;
    let patch_flat = patch_size * patch_size * 3;
    let num_patches = (image_size / patch_size).pow(2);
    let num_positions = num_patches + 1;

    let enc = ClipEncoder {
        patch_embd_weight: vec![f(0.0); hidden_size * patch_flat],
        patch_embd_bias: vec![f(0.0); hidden_size],
        position_embd: vec![f(0.0); num_positions * hidden_size],
        pre_ln_weight: vec![],
        pre_ln_bias: vec![],
        post_ln_weight: vec![f(1.0); hidden_size],
        post_ln_bias: vec![f(0.0); hidden_size],
        layers: vec![],
        hidden_size,
        num_heads: 4,
        patch_size,
        image_size,
    };

    // Correct size is 3 * 28 * 28 = 2352; pass 100 instead.
    let wrong_pixels = vec![f(0.0); 100];
    let result = enc.encode(&wrong_pixels);
    assert!(result.is_err(), "wrong pixel length must return Err");
}

fn encoder(hidden_size: usize, patch_size: usize, image_size: usize) -> ClipEncoder {
    let patch_flat = patch_size * patch_size * 3;
    let num_positions = (image_size / patch_size).pow(2) + 1;
    ClipEncoder {
        patch_embd_weight: vec![f(0.01); hidden_size * patch_flat],
        patch_embd_bias: vec![f(0.0); hidden_size],
        position_embd: vec![f(0.01); num_positions * hidden_size],
        pre_ln_weight: vec![],
        pre_ln_bias: vec![],
        post_ln_weight: vec![f(1.0); hidden_size],
        post_ln_bias: vec![f(0.0); hidden_size],
        layers: vec![],
        hidden_size,
        num_heads: 2,
        patch_size,
        image_size,
    }
}

#[test]
fn test_clip_encoder_returns_correct_patch_count() {
    let (hidden_size, patch_size, image_size) = (8usize, 14usize, 28usize);
    let num_patches = (image_size / patch_size).pow(2);
    let enc = encoder(hidden_size, patch_size, image_size);
    let pixels = vec![f(0.0); 3 * image_size * image_size];
    let input = enc.encode(&pixels).expect("encode should not fail");
    assert_eq!(input.patches.len(), num_patches);
    let states = vec![vec![f(0.0); hidden_size]; num_patches + 1];
    let features = enc.visual_tokens(&states);
    assert_eq!(
        features.len(),
        num_patches * hidden_size,
        "expected 32 features for 2×2 patches"
    );
}

fn planned(weight: &Vec<u32>, plan: &Vec<RowRead>, x: &Vec<f32>) -> Vec<f32> {
    plan.iter()
        .map(|r| {
            let s: f32 = match r.start {
                Some(s) => weight[s..].iter().zip(x).map(|(w, x)| f32::from_bits(*w) * x).sum(),
                None => 0.0,
            };
            s + f32::from_bits(r.bias)
        })
        .collect()
}

fn added(a: &Vec<f32>, b: &Vec<f32>) -> Vec<f32> {
    a.iter().zip(b).map(|(a, b)| a + b).collect()
}

/// Full encode() with 1 layer and small dims: output shape must be
/// (image_size/patch_size)^2 * hidden_size = (28/14)^2 * 8 = 32.
#[test]
fn test_clip_encode_output_shape_correct() {
    let (hidden_size, patch_size, image_size) = (8usize, 14usize, 28usize);
    let num_patches = (image_size / patch_size).pow(2);
    let ffn_dim = hidden_size * 4;
    let attn_w = vec![f(0.01); hidden_size * hidden_size];
    let attn_b = vec![f(0.0); hidden_size];
    let layer = ClipEncoderLayer {
        ln1_weight: vec![f(1.0); hidden_size],
        ln1_bias: vec![f(0.0); hidden_size],
        ln2_weight: vec![f(1.0); hidden_size],
        ln2_bias: vec![f(0.0); hidden_size],
        q_weight: attn_w.clone(),
        k_weight: attn_w.clone(),
        v_weight: attn_w.clone(),
        out_weight: attn_w,
        q_bias: attn_b.clone(),
        k_bias: attn_b.clone(),
        v_bias: attn_b.clone(),
        out_bias: attn_b,
        fc1_weight: vec![f(0.01); ffn_dim * hidden_size],
        fc1_bias: vec![f(0.0); ffn_dim],
        fc2_weight: vec![f(0.01); hidden_size * ffn_dim],
        fc2_bias: vec![f(0.0); hidden_size],
    };
    let mut enc = encoder(hidden_size, patch_size, image_size);
    enc.num_heads = 2;
    enc.layers = vec![layer];
    let pixels: Vec<u32> =
        (0..(3 * image_size * image_size)).map(|i| f((i as f32) * 0.001)).collect();
    let input = enc.encode(&pixels).expect("1-layer encode should succeed");
    let mut states: Vec<Vec<f32>> = vec![vec![0.0; hidden_size]];
    let plan = enc.patch_rows();
    for patch in &input.patches {
        let x: Vec<f32> = patch.iter().map(|b| f32::from_bits(*b)).collect();
        states.push(planned(&enc.patch_embd_weight, &plan, &x));
    }
    for (state, start) in states.iter_mut().zip(&input.positions) {
        let s = start.expect("every position has a row");
        let row: Vec<f32> =
            enc.position_embd[s..s + hidden_size].iter().map(|b| f32::from_bits(*b)).collect();
        *state = added(state, &row);
    }
    let layer = &enc.layers[0];
    let plan = enc.mhsa(layer);
    let d = plan.head_dim;
    let q: Vec<_> = states.iter().map(|x| planned(&layer.q_weight, &plan.query, x)).collect();
    let k: Vec<_> = states.iter().map(|x| planned(&layer.k_weight, &plan.key, x)).collect();
    let v: Vec<_> = states.iter().map(|x| planned(&layer.v_weight, &plan.value, x)).collect();
    for (t, state) in states.iter_mut().enumerate() {
        let mut heads = vec![0.0f32; hidden_size];
        for &start in &plan.head_starts {
            let part = start..start + d;
            let scores: Vec<f32> = k
                .iter()
                .map(|k| q[t][part.clone()].iter().zip(&k[part.clone()]).map(|(q, k)| q * k).sum())
                .map(|s: f32| (s / (d as f32).sqrt()).exp())
                .collect();
            let total: f32 = scores.iter().sum();
            for (s, v) in scores.iter().zip(&v) {
                for i in part.clone() {
                    heads[i] += s / total * v[i];
                }
            }
        }
        *state = added(state, &planned(&layer.out_weight, &plan.output, &heads));
        let ffn = enc.ffn(layer).expect("inner size");
        let inner: Vec<f32> =
            planned(&layer.fc1_weight, &ffn.up, state).into_iter().map(gelu).collect();
        *state = added(state, &planned(&layer.fc2_weight, &ffn.down, &inner));
    }
    let states: Vec<Vec<u32>> =
        states.iter().map(|s| s.iter().map(|x| x.to_bits()).collect()).collect();
    let out = enc.visual_tokens(&states);
    let expected_len = num_patches * hidden_size;
    assert_eq!(
        out.len(),
        expected_len,
        "encode output shape: expected {expected_len}, got {}",
        out.len()
    );
    assert!(out.iter().all(|b| f32::from_bits(*b).is_finite()));
}

#[test]
fn test_clip_encode_zero_layers_returns_positional_only() {
    let (hidden_size, patch_size, image_size) = (8usize, 14usize, 28usize);
    let num_patches = (image_size / patch_size).pow(2); // 4
    let enc = encoder(hidden_size, patch_size, image_size);
    let pixels = vec![f(1.0); 3 * image_size * image_size];
    let input = enc.encode(&pixels).expect("zero-layer encode should succeed");
    let starts: Vec<Option<usize>> = (0..num_patches + 1).map(|p| Some(p * hidden_size)).collect();
    assert_eq!(input.positions, starts);
}

#[test]
fn patches_cut_the_image_row_by_row() {
    let enc = encoder(2, 2, 4);
    let pixels: Vec<u32> = (0..48).collect();
    let input = enc.encode(&pixels).expect("encode");
    assert_eq!(input.patches.len(), 4);
    assert_eq!(input.patches[0], vec![0, 16, 32, 1, 17, 33, 4, 20, 36, 5, 21, 37]);
    assert_eq!(input.patches[3], vec![10, 26, 42, 11, 27, 43, 14, 30, 46, 15, 31, 47]);
}

#[test]
fn class_token_is_left_out() {
    let enc = encoder(2, 2, 4);
    let states = vec![vec![1, 2], vec![3, 4], vec![5, 6]];
    assert_eq!(enc.visual_tokens(&states), vec![3, 4, 5, 6]);
}

#[test]
fn inner_size_follows_from_the_first_projection() {
    let n = 8usize;
    let layer = ClipEncoderLayer {
        ln1_weight: vec![],
        ln1_bias: vec![],
        ln2_weight: vec![],
        ln2_bias: vec![],
        q_weight: vec![],
        k_weight: vec![],
        v_weight: vec![],
        out_weight: vec![],
        q_bias: vec![],
        k_bias: vec![],
        v_bias: vec![],
        out_bias: vec![],
        fc1_weight: vec![0; 4 * n * n],
        fc1_bias: vec![],
        fc2_weight: vec![],
        fc2_bias: vec![],
    };
    assert_eq!(layer.ffn_dim(n), 32);
}

fn empty_layer() -> ClipEncoderLayer {
    ClipEncoderLayer {
        ln1_weight: vec![],
        ln1_bias: vec![],
        ln2_weight: vec![],
        ln2_bias: vec![],
        q_weight: vec![],
        k_weight: vec![],
        v_weight: vec![],
        out_weight: vec![],
        q_bias: vec![],
        k_bias: vec![],
        v_bias: vec![],
        out_bias: vec![],
        fc1_weight: vec![],
        fc1_bias: vec![],
        fc2_weight: vec![],
        fc2_bias: vec![],
    }
}

#[test]
fn parts_follow_one_another() {
    let mut enc = encoder(2, 2, 4);
    enc.pre_ln_weight = vec![];
    enc.post_ln_weight = vec![f(1.0); 2];
    let normed = ClipEncoderLayer { ln2_weight: vec![f(1.0); 2], ..empty_layer() };
    enc.layers = vec![normed, empty_layer()];
    let mut parts = Vec::new();
    let mut part = enc.first_part();
    while part != ClipPart::Done {
        parts.push(part);
        part = enc.next_part(part);
    }
    assert_eq!(
        parts,
        vec![
            ClipPart::PreNorm { present: false },
            ClipPart::Attend { layer: 0, normed: false },
            ClipPart::Feed { layer: 0, normed: true },
            ClipPart::Attend { layer: 1, normed: false },
            ClipPart::Feed { layer: 1, normed: false },
            ClipPart::PostNorm { present: true },
        ]
    );
    assert_eq!(enc.class_state(), vec![0, 0]);
    let rows = enc.patch_rows();
    assert_eq!(rows.len(), 2);
    assert_eq!(rows[1].start, Some(12));
}

#[test]
fn a_layer_reads_its_rows_and_heads() {
    let mut enc = encoder(5, 2, 4);
    enc.num_heads = 2;
    let layer = ClipEncoderLayer {
        ln1_weight: vec![],
        ln1_bias: vec![],
        ln2_weight: vec![],
        ln2_bias: vec![],
        q_weight: vec![0; 25],
        k_weight: vec![0; 14],
        v_weight: vec![],
        out_weight: vec![0; 25],
        q_bias: vec![7, 8],
        k_bias: vec![],
        v_bias: vec![9],
        out_bias: vec![],
        fc1_weight: vec![0; 13],
        fc1_bias: vec![1],
        fc2_weight: vec![0; 10],
        fc2_bias: vec![],
    };
    let plan = enc.mhsa(&layer);
    assert_eq!(plan.head_dim, 2);
    assert_eq!(plan.head_starts, vec![0, 2]);
    let row = |start, bias| RowRead { start, bias };
    assert_eq!(plan.query.len(), 5);
    assert_eq!(plan.query[1], row(Some(5), 8));
    assert_eq!(plan.query[4], row(Some(20), 0));
    assert_eq!(plan.key[1], row(Some(5), 0));
    assert_eq!(plan.key[2], row(None, 0));
    assert_eq!(plan.value[0], row(None, 9));
    assert_eq!(plan.output[3], row(Some(15), 0));
    let ffn = enc.ffn(&layer).expect("inner size");
    assert_eq!(ffn.up, vec![row(Some(0), 1), row(Some(5), 0)]);
    assert_eq!(ffn.down.len(), 5);
    assert_eq!(ffn.down[4], row(Some(8), 0));
    let short = ClipEncoderLayer { fc1_weight: vec![0; 4], ..layer };
    assert!(enc.ffn(&short).is_none());
}

/// AnyresTileConfig accessor from LlavaNextModel.
#[test]
fn llava_next_tiler_accessor_returns_correct_config() {
    let tiler = AnyresTileConfig::default_llava16();
    assert_eq!(tiler.tile_size, 336);
    assert_eq!(tiler.max_tiles, 6);
    assert!(!tiler.grid_pinpoints.is_empty());
}

fn numbers(v: &[u32]) -> MetadataValue {
    MetadataValue::Array(v.iter().map(|n| MetadataValue::Uint32(*n)).collect())
}

#[test]
fn tiles_come_from_metadata() {
    let tiler = parse_tiler_config(&MetadataStore::new());
    let default = AnyresTileConfig::default_llava16();
    assert_eq!(tiler.tile_size, default.tile_size);
    assert_eq!(tiler.grid_pinpoints, default.grid_pinpoints);
    let mut store = MetadataStore::new();
    store.insert("llava16.tile_size".to_string(), MetadataValue::Uint32(28));
    store.insert("llava16.max_tiles".to_string(), MetadataValue::Uint32(4));
    store.insert(
        "llava16.image_grid_pinpoints".to_string(),
        numbers(&[56, 28, 27, 84, 30, 100, 7]),
    );
    let tiler = parse_tiler_config(&store);
    assert_eq!(tiler.tile_size, 28);
    assert_eq!(tiler.max_tiles, 4);
    assert_eq!(tiler.grid_pinpoints, vec![(2, 1), (1, 3)]);
}

#[test]
fn failures_of_parts_are_named() {
    match tile_failed(3, "no pixels") {
        ArchError::ForwardPassError { layer, message } => {
            assert_eq!(layer, 3);
            assert_eq!(message, "CLIP tile 3 encode error: no pixels");
        }
        other => panic!("unexpected error: {other:?}"),
    }
    match thumbnail_failed("no pixels") {
        ArchError::ForwardPassError { layer, message } => {
            assert_eq!(layer, usize::MAX);
            assert_eq!(message, "CLIP thumbnail encode error: no pixels");
        }
        other => panic!("unexpected error: {other:?}"),
    }
}

#[test]
fn vision_without_tensors_is_empty() {
    let model = GgufModel { metadata: MetadataStore::new(), tensors: TensorStore::new() };
    let enc = load_vision(&model, 1024);
    assert_eq!(enc.num_patches(), 576);
    assert_eq!(enc.hidden_size, 1024);
    assert!(enc.patch_embd_weight.is_empty());
    assert!(load_projector(&model, 64).is_err());
}
