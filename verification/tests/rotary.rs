//! Rotations of heads, run against tables of angles.

use oxillama_arch::common::mrope::MRopeTable as Axes;
use oxillama_arch::common::rope::{Frequencies, RopeScalingType, RopeTable as Table, Rotation};
use oxillama_arch::config::ModelConfig;
use oxillama_arch::gpt_neox::{GptNeoxModel, DEFAULT_PARTIAL_ROTARY_FACTOR};
use oxillama_arch::common::norm::LayerNorm;

/// The frequency of pair `i`.
fn frequency(i: usize, half: usize, f: Frequencies) -> f32 {
    let base = f32::from_bits(f.base);
    let factor = f32::from_bits(f.scaling_factor);
    let plain = 1.0 / base.powf((2 * i) as f32 / (2 * half) as f32);
    match f.scaling_type {
        RopeScalingType::Standard => plain,
        RopeScalingType::Linear => plain / factor,
        RopeScalingType::Yarn => {
            let wavelength = 2.0 * std::f32::consts::PI / plain;
            let (low, high) = (4096.0f32 / 32.0, 4096.0f32);
            let ramp = ((wavelength - low) / (high - low)).clamp(0.0, 1.0);
            plain / factor * (1.0 - ramp) + plain * ramp
        }
    }
}

fn rotate(x: &mut [f32], rotations: &[Rotation], cos: &[f32], sin: &[f32]) {
    for r in rotations {
        let (a, b) = (x[r.first], x[r.second]);
        x[r.first] = a * cos[r.entry] - b * sin[r.entry];
        x[r.second] = a * sin[r.entry] + b * cos[r.entry];
    }
}

/// A table with its angles.
struct RopeTable {
    table: Table,
    cos: Vec<f32>,
    sin: Vec<f32>,
}

impl RopeTable {
    fn of(table: Table) -> Self {
        let half = table.half_dim();
        let angles: Vec<f32> = (0..table.entries())
            .map(|e| (e / half) as f32 * frequency(e % half, half, table.frequencies()))
            .collect();
        RopeTable {
            table,
            cos: angles.iter().map(|a| a.cos()).collect(),
            sin: angles.iter().map(|a| a.sin()).collect(),
        }
    }

    fn new(head_dim: usize, max: usize, base: f32, kind: RopeScalingType, factor: f32) -> Self {
        Self::of(Table::new(head_dim, max, base.to_bits(), kind, factor.to_bits()))
    }

    fn new_standard(head_dim: usize, max: usize, base: f32) -> Self {
        Self::of(Table::new_standard(head_dim, max, base.to_bits()))
    }

    fn apply(&self, x: &mut [f32], position: usize) {
        let plan = self.table.apply(x.len(), position).expect("position in the table");
        rotate(x, &plan, &self.cos, &self.sin);
    }
}

/// Tables of three axes with their angles.
struct MRopeTable {
    axes: Axes,
    cos: Vec<f32>,
    sin: Vec<f32>,
}

impl MRopeTable {
    fn new(head_dim: usize, max: usize, base: f32) -> Self {
        let axes = Axes::new(head_dim, max, base.to_bits());
        let one = RopeTable::new_standard(
            2 * axes.half_dim_per_axis(),
            axes.max_seq_len(),
            f32::from_bits(axes.base()),
        );
        MRopeTable { axes, cos: one.cos, sin: one.sin }
    }

    fn apply_mrope(&self, x: &mut [f32], t: usize, h: usize, w: usize, head_dim: usize) {
        let plan = self.axes.apply_mrope(x.len(), t, h, w, head_dim);
        for part in [&plan.time, &plan.height, &plan.width] {
            rotate(x, part, &self.cos, &self.sin);
        }
    }
}

#[test]
fn test_rope_position_zero() {
    let table = RopeTable::new(4, 16, 10000.0, RopeScalingType::Standard, 1.0);
    let mut x = vec![1.0, 2.0, 3.0, 4.0];
    let original = x.clone();
    table.apply(&mut x, 0);

    for (a, b) in x.iter().zip(original.iter()) {
        assert!((a - b).abs() < 1e-5, "expected {b}, got {a}");
    }
}

#[test]
fn standard_and_linear_scale_1_match() {
    let t1 = RopeTable::new(64, 8, 10000.0, RopeScalingType::Standard, 1.0);
    let t2 = RopeTable::new(64, 8, 10000.0, RopeScalingType::Linear, 1.0);
    for (a, b) in t1.cos.iter().zip(t2.cos.iter()) {
        assert!((a - b).abs() < 1e-6, "cos mismatch: {a} vs {b}");
    }
}

#[test]
fn linear_scaling_extends_freq_range() {
    let standard = RopeTable::new(64, 8, 10000.0, RopeScalingType::Standard, 1.0);
    let linear = RopeTable::new(64, 8, 10000.0, RopeScalingType::Linear, 4.0);
    let differs = standard
        .cos
        .iter()
        .zip(linear.cos.iter())
        .any(|(a, b)| (a - b).abs() > 1e-4);
    assert!(differs, "Linear-4x should differ from standard");
}

#[test]
fn yarn_produces_valid_values() {
    let yarn = RopeTable::new(64, 16, 10000.0, RopeScalingType::Yarn, 4.0);
    for v in yarn.cos.iter().chain(yarn.sin.iter()) {
        assert!(v.abs() <= 1.0 + 1e-6, "out of range: {v}");
    }
}

#[test]
fn apply_in_place_unchanged_shape() {
    let table = RopeTable::new_standard(8, 4, 10000.0);
    let mut x = vec![1.0f32; 8];
    table.apply(&mut x, 0);
    assert_eq!(x.len(), 8);
}

/// M-RoPE with (pos, pos, pos) must produce the same result as applying
/// standard 1-D RoPE **independently to each third** of the head vector.
///
/// This exercises the core invariant: when all three axes receive the same
/// position index, M-RoPE is equivalent to three independent RoPE applications,
/// each over a sub-dimension of size `head_dim / 3`.
///
/// Note: this is NOT the same as a single full-head 1-D RoPE, because the
/// frequency spacing uses `dim_per_axis = head_dim / 3` as the denominator,
/// not the full `head_dim`.
#[test]
fn mrope_text_only_matches_1d_rope() {
    // head_dim must be divisible by 6 for the third-split to be exact.
    // We use 24 = 6×4, so dim_per_axis = 8, half_per_axis = 4.
    let head_dim = 24usize;
    let max_seq = 32usize;
    let base = 10000.0f32;
    let pos = 5usize;

    let dim_per_axis = head_dim / 3; // = 8

    // Build M-RoPE table.
    let mrope = MRopeTable::new(head_dim, max_seq, base);

    // Build a standard RoPE table over dim_per_axis (= 8 dims, half = 4).
    let rope_axis = RopeTable::new_standard(dim_per_axis, max_seq, base);

    // Build a non-trivial test vector.
    let x_init: Vec<f32> = (0..head_dim).map(|i| (i as f32 + 1.0) * 0.1).collect();

    // Apply M-RoPE with equal positions on all axes.
    let mut x_mm = x_init.clone();
    mrope.apply_mrope(&mut x_mm, pos, pos, pos, head_dim);

    // Reference: apply the per-axis RoPE independently to each 8-element third.
    let mut x_ref = x_init.clone();
    for axis in 0..3 {
        let start = axis * dim_per_axis;
        let mut third: Vec<f32> = x_ref[start..start + dim_per_axis].to_vec();
        rope_axis.apply(&mut third, pos);
        x_ref[start..start + dim_per_axis].copy_from_slice(&third);
    }

    // M-RoPE must match the per-axis reference within floating-point tolerance.
    for (i, (a, b)) in x_mm.iter().zip(x_ref.iter()).enumerate() {
        assert!(
            (a - b).abs() < 1e-5,
            "mismatch at dim {i}: mrope={a}, per-axis-rope={b}"
        );
    }
}

/// Changing h_pos should only affect the middle third of the head vector,
/// leaving the first and last thirds unchanged.
#[test]
fn mrope_vision_axes_independent() {
    let head_dim = 24usize;
    let max_seq = 32usize;
    let base = 10000.0f32;
    let t_pos = 0usize;
    let w_pos = 3usize;
    let h_pos_a = 2usize;
    let h_pos_b = 7usize;

    let mrope = MRopeTable::new(head_dim, max_seq, base);
    let x_init: Vec<f32> = (0..head_dim).map(|i| (i as f32 + 1.0) * 0.3).collect();

    let mut x_a = x_init.clone();
    mrope.apply_mrope(&mut x_a, t_pos, h_pos_a, w_pos, head_dim);

    let mut x_b = x_init.clone();
    mrope.apply_mrope(&mut x_b, t_pos, h_pos_b, w_pos, head_dim);

    let dim_per_axis = head_dim / 3;

    // Time third (0..dim/3) must be identical — same t_pos.
    for i in 0..dim_per_axis {
        assert!(
            (x_a[i] - x_b[i]).abs() < 1e-7,
            "time axis should be equal at {i}: {:.6} vs {:.6}",
            x_a[i],
            x_b[i]
        );
    }

    // Height third (dim/3..2*dim/3) must differ because h_pos_a != h_pos_b.
    let h_third_differs =
        (dim_per_axis..2 * dim_per_axis).any(|i| (x_a[i] - x_b[i]).abs() > 1e-6);
    assert!(
        h_third_differs,
        "height axis results must differ when h_pos changes"
    );

    // Width third (2*dim/3..dim) must be identical — same w_pos.
    for i in 2 * dim_per_axis..head_dim {
        assert!(
            (x_a[i] - x_b[i]).abs() < 1e-7,
            "width axis should be equal at {i}: {:.6} vs {:.6}",
            x_a[i],
            x_b[i]
        );
    }
}

fn neox() -> GptNeoxModel {
    let config = ModelConfig {
        architecture: "gptneox".to_string(),
        hidden_size: 8,
        intermediate_size: 16,
        num_layers: 1,
        num_attention_heads: 2,
        num_kv_heads: 2,
        head_dim: 4,
        vocab_size: 4,
        max_context_length: 8,
        ..ModelConfig::default()
    };
    let norm = LayerNorm::new(vec![0x3F80_0000; 8], Some(vec![0; 8]), 1e-5f32.to_bits());
    GptNeoxModel::new(config, DEFAULT_PARTIAL_ROTARY_FACTOR, vec![0; 32], vec![], norm, vec![0; 32])
}

fn rotary_dims(model: &GptNeoxModel, head_dim: usize) -> usize {
    let factor = f32::from_bits(model.partial_rotary_factor);
    model.rotary_dims(head_dim, (factor * head_dim as f32) as usize)
}

/// Verify that partial RoPE rotates only the first `rotary_dims` dimensions
/// and leaves the rest unchanged.
#[test]
fn gptneox_partial_rope_correctness() {
    let model = neox();

    // Use head_dim = 64 for a meaningful test (25% → 16 rotary dims).
    let big_head_dim = 64usize;
    let rotary_dims = rotary_dims(&model, big_head_dim); // 25% of 64 = 16

    let mut head = vec![0.0f32; big_head_dim];
    for (i, v) in head.iter_mut().enumerate() {
        *v = (i + 1) as f32;
    }
    let original = head.clone();

    // Apply partial RoPE at position 1 (non-trivial values).
    let angles = RopeTable::of(model.rope);
    let plan = model.apply_partial_rope(head.len(), 1, rotary_dims).expect("angles reach");
    rotate(&mut head, &plan, &angles.cos, &angles.sin);

    // The rotated range [0, rotary_dims) should have changed.
    let rotated_changed = (0..rotary_dims).any(|i| (head[i] - original[i]).abs() > 1e-6);
    assert!(
        rotated_changed,
        "rotated dims should change at position != 0, got head[..{rotary_dims}]={:?}",
        &head[..rotary_dims]
    );

    // The unrotated range [rotary_dims, big_head_dim) must be identical.
    for i in rotary_dims..big_head_dim {
        assert!(
            (head[i] - original[i]).abs() < 1e-9,
            "dim {i} (outside rotary range) must be unchanged; got {} vs {}",
            head[i],
            original[i]
        );
    }

    assert_eq!(rotary_dims, 16, "25% of 64 must be 16 rotary dims");
}

#[test]
fn rotary_dims_are_even_and_fit() {
    let model = neox();
    assert_eq!(f32::from_bits(DEFAULT_PARTIAL_ROTARY_FACTOR), 0.25);
    assert_eq!(model.rotary_dims(64, 17), 16);
    assert_eq!(model.rotary_dims(64, 200), 64);
    assert_eq!(model.rotary_dims(5, 9), 4);
    assert_eq!(model.rotary_dims(1, 1), 0);
}

#[test]
fn rotations_pair_halves_of_a_head() {
    let table = Table::new_standard(6, 4, 10000.0f32.to_bits());
    let plan = table.apply(6, 2).expect("row of the position");
    let expected = vec![
        Rotation { first: 0, second: 3, entry: 6 },
        Rotation { first: 1, second: 4, entry: 7 },
        Rotation { first: 2, second: 5, entry: 8 },
    ];
    assert_eq!(plan, expected);
    assert!(table.apply(6, 4).is_none());
    assert!(table.apply(5, 0).is_none());
    assert_eq!(table.entries(), 12);
    assert_eq!(table.max_seq_len(), 4);
}

#[test]
fn partial_rotations_stop_at_the_table() {
    let model = neox();
    assert!(model.apply_partial_rope(64, 5, 16).is_none());
    assert_eq!(model.apply_partial_rope(64, 5, 0), Some(vec![]));
    assert_eq!(model.head_rotations(7, 4).len(), 2);
    assert_eq!(model.head_rotations(8, 4).len(), 0);
    assert_eq!(model.head_rotations(3, 6).len(), 1);
}

#[test]
fn axes_without_a_row_are_left_alone() {
    let axes = Axes::new(24, 8, 10000.0f32.to_bits());
    assert_eq!(axes.half_dim_per_axis(), 4);
    let plan = axes.apply_mrope(24, 1, 8, 1, 24);
    assert!(plan.time.is_empty() && plan.height.is_empty() && plan.width.is_empty());
    let short = axes.apply_mrope(20, 1, 2, 3, 24);
    assert_eq!(short.time.len(), 4);
    assert_eq!(short.height[0], Rotation { first: 8, second: 12, entry: 8 });
    assert!(short.width.is_empty());
}
