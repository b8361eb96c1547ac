//! Linear layers and their low-rank corrections.

use std::sync::Arc;

use oxillama_arch::common::linear::{
    linear_proj, LoadedLora, LoraAdapter, QuantLinear, QuantTensor, RowRead,
};
use oxillama_arch::gguf::TensorType;

/// Build a small F32 QuantTensor from row-major weight values.
fn f32_tensor(weights: &[f32], rows: usize, cols: usize) -> QuantTensor {
    let mut data = Vec::with_capacity(weights.len() * 4);
    for &w in weights {
        data.extend_from_slice(&w.to_le_bytes());
    }
    QuantTensor { data, shape: vec![rows, cols], tensor_type: TensorType::F32 }
}

fn bits(v: Vec<f32>) -> Vec<u32> {
    v.into_iter().map(f32::to_bits).collect()
}

fn adapter(a: Vec<f32>, b: Vec<f32>, rank: usize, scale: f32) -> LoraAdapter {
    LoraAdapter { a: bits(a), b: bits(b), rank, scale: scale.to_bits() }
}

fn product(m: &[f32], x: &[f32]) -> Vec<f32> {
    m.chunks(x.len()).map(|row| row.iter().zip(x).map(|(w, x)| w * x).sum()).collect()
}

fn floats(v: &[u32]) -> Vec<f32> {
    v.iter().map(|b| f32::from_bits(*b)).collect()
}

/// Runs a layer: the product, then the bias, then the correction.
fn forward(l: &QuantLinear, input: &[f32], output: &mut [f32]) {
    let w: Vec<f32> = l
        .weight
        .data
        .chunks(4)
        .map(|c| f32::from_le_bytes([c[0], c[1], c[2], c[3]]))
        .collect();
    assert_eq!(l.in_features, input.len());
    assert_eq!(l.out_features, output.len());
    output.copy_from_slice(&product(&w, input));
    if let Some(bias) = &l.bias {
        for (o, b) in output.iter_mut().zip(floats(bias)) {
            *o += b;
        }
    }
    if let Some(lora) = &l.lora {
        let rows = lora.apply(input.len(), output.len()).expect("correction fits");
        let (a, b) = (floats(&lora.a), floats(&lora.b));
        let times = |row: &[f32], x: &[f32]| row.iter().zip(x).map(|(w, x)| w * x).sum::<f32>();
        let inner: Vec<f32> =
            rows.a.iter().map(|&r| times(&a[r..r + input.len()], input)).collect();
        for (o, &r) in output.iter_mut().zip(&rows.b) {
            *o += f32::from_bits(lora.scale) * times(&b[r..r + lora.rank], &inner);
        }
    }
}

/// A QuantLinear without LoRA should produce the plain GEMV result.
#[test]
fn test_forward_no_lora() {
    // Weight matrix: [[2, 0], [0, 3]]  (2×2, F32)
    let tensor = f32_tensor(&[2.0f32, 0.0, 0.0, 3.0], 2, 2);
    let linear = QuantLinear::new(tensor, None);

    let input = vec![4.0f32, 5.0];
    let mut output = vec![0.0f32; 2];
    forward(&linear, &input, &mut output);

    // W @ input = [2*4 + 0*5, 0*4 + 3*5] = [8, 15]
    assert!((output[0] - 8.0).abs() < 1e-5, "output[0]={}", output[0]);
    assert!((output[1] - 15.0).abs() < 1e-5, "output[1]={}", output[1]);
}

/// After `set_lora()`, the LoRA correction is added to the GEMV result.
///
/// W = I₂ (2×2 identity), so W @ input = input = [1, 2].
/// A = I₂, B = I₂, scale = 1.0  →  delta = input = [1, 2].
/// Expected output = [1+1, 2+2] = [2, 4].
#[test]
fn test_forward_with_lora_identity() {
    let tensor = f32_tensor(&[1.0f32, 0.0, 0.0, 1.0], 2, 2); // I₂
    let mut linear = QuantLinear::new(tensor, None);

    let a = vec![1.0f32, 0.0, 0.0, 1.0]; // I₂, rank=2, in=2
    let b = vec![1.0f32, 0.0, 0.0, 1.0]; // I₂, out=2, rank=2
    let lora = adapter(a, b, 2, 1.0);
    linear.set_lora(Arc::new(lora));

    let input = vec![1.0f32, 2.0];
    let mut output = vec![0.0f32; 2];
    forward(&linear, &input, &mut output);

    assert!((output[0] - 2.0).abs() < 1e-5, "output[0]={}", output[0]);
    assert!((output[1] - 4.0).abs() < 1e-5, "output[1]={}", output[1]);
}

/// After `clear_lora()`, the LoRA correction is no longer applied.
#[test]
fn test_clear_lora() {
    let tensor = f32_tensor(&[1.0f32, 0.0, 0.0, 1.0], 2, 2);
    let mut linear = QuantLinear::new(tensor, None);

    let lora = adapter(vec![1.0, 0.0, 0.0, 1.0], vec![1.0, 0.0, 0.0, 1.0], 2, 1.0);
    linear.set_lora(Arc::new(lora));
    linear.clear_lora();

    let input = vec![3.0f32, 7.0];
    let mut output = vec![0.0f32; 2];
    forward(&linear, &input, &mut output);

    // No LoRA: W @ input = I₂ @ [3,7] = [3,7]
    assert!((output[0] - 3.0).abs() < 1e-5, "output[0]={}", output[0]);
    assert!((output[1] - 7.0).abs() < 1e-5, "output[1]={}", output[1]);
}

/// LoRA is applied after the bias, not before.
#[test]
fn test_forward_lora_applied_after_bias() {
    // W = I₂, bias = [10, 10]
    let tensor = f32_tensor(&[1.0f32, 0.0, 0.0, 1.0], 2, 2);
    let mut linear = QuantLinear::new(tensor, Some(bits(vec![10.0f32, 10.0])));

    // LoRA: A=I₂, B=I₂, scale=1.0 → delta = input
    let lora = adapter(vec![1.0, 0.0, 0.0, 1.0], vec![1.0, 0.0, 0.0, 1.0], 2, 1.0);
    linear.set_lora(Arc::new(lora));

    let input = vec![2.0f32, 3.0];
    let mut output = vec![0.0f32; 2];
    forward(&linear, &input, &mut output);

    // W @ input + bias + delta = [2+10+2, 3+10+3] = [14, 16]
    assert!((output[0] - 14.0).abs() < 1e-5, "output[0]={}", output[0]);
    assert!((output[1] - 16.0).abs() < 1e-5, "output[1]={}", output[1]);
}

/// `lora` field is None for a freshly constructed QuantLinear.
#[test]
fn test_new_lora_is_none() {
    let tensor = f32_tensor(&[1.0f32], 1, 1);
    let linear = QuantLinear::new(tensor, None);
    assert!(linear.lora.is_none());
}

#[test]
fn adapters_are_found_by_tensor() {
    let mut file = LoadedLora::new();
    file.insert("a".to_string(), Arc::new(adapter(vec![1.0], vec![1.0], 1, 2.0)));
    let mut l = QuantLinear::new(f32_tensor(&[1.0f32], 1, 1), None);
    l.patch(&file, "b");
    assert!(l.lora.is_none());
    l.patch(&file, "a");
    assert_eq!(l.lora.as_ref().expect("patched").scale, 2.0f32.to_bits());
    l.patch(&file, "b");
    assert!(l.lora.is_some());
    assert!(file.get("c").is_none());
}

#[test]
fn outputs_without_a_row_are_their_bias() {
    let bias = vec![7u32];
    let plan = linear_proj(5, &bias, 3, 2);
    assert_eq!(
        plan,
        vec![
            RowRead { start: Some(0), bias: 7 },
            RowRead { start: Some(2), bias: 0 },
            RowRead { start: None, bias: 0 },
        ]
    );
}

#[test]
fn corrections_are_read_row_by_row() {
    let lora = adapter(vec![0.0; 6], vec![0.0; 8], 2, 1.0);
    let rows = lora.apply(3, 4).expect("correction fits");
    assert_eq!(rows.a, vec![0, 3]);
    assert_eq!(rows.b, vec![0, 2, 4, 6]);
    assert!(lora.apply(4, 4).is_none());
    assert!(lora.apply(3, 5).is_none());
}
