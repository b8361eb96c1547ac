//! Patterns of numbers, and texts.

use half::f16;
use oxillama_arch::bits::{
    at_least, far_from_one, key_of, nan, positive, widen_half, F32_1E_MINUS_5, F32_1E_MINUS_9,
    F32_HALF, F32_INFINITY, F32_MILLION, F32_ONE, F32_TEN_THOUSAND, F32_ZERO,
};
use oxillama_arch::table::NameTable;
use oxillama_arch::text::{block_name, decimal_string, joined, same_text, starts_with};

#[test]
fn constants_are_their_patterns() {
    assert_eq!(F32_ZERO, 0.0f32.to_bits());
    assert_eq!(F32_ONE, 1.0f32.to_bits());
    assert_eq!(F32_HALF, 0.5f32.to_bits());
    assert_eq!(F32_1E_MINUS_5, 1e-5f32.to_bits());
    assert_eq!(F32_1E_MINUS_9, 1e-9f32.to_bits());
    assert_eq!(F32_TEN_THOUSAND, 10000.0f32.to_bits());
    assert_eq!(F32_MILLION, 1_000_000.0f32.to_bits());
    assert_eq!(F32_INFINITY, f32::INFINITY.to_bits());
}

#[test]
fn every_half_precision_number_is_widened() {
    for h in 0..=u16::MAX {
        let wide = f32::from_bits(widen_half(h));
        let reference = f16::from_bits(h).to_f32();
        if reference.is_nan() {
            assert!(wide.is_nan(), "{h:#06x}");
            assert_eq!(wide.is_sign_negative(), h >= 0x8000, "{h:#06x}");
        } else {
            assert_eq!(wide.to_bits(), reference.to_bits(), "{h:#06x}");
        }
    }
}

fn samples() -> Vec<f32> {
    vec![
        f32::NEG_INFINITY,
        -3.5,
        -1.0,
        -f32::MIN_POSITIVE,
        -1e-45,
        -0.0,
        0.0,
        1e-45,
        f32::MIN_POSITIVE,
        1e-9,
        1e-5,
        0.99,
        1.0,
        1.0 + f32::EPSILON,
        1.0 + 2.0 * f32::EPSILON,
        2.0,
        f32::MAX,
        f32::INFINITY,
    ]
}

#[test]
fn keys_order_numbers() {
    for a in samples() {
        for b in samples() {
            let (ka, kb) = (key_of(a.to_bits()), key_of(b.to_bits()));
            assert_eq!(a < b, ka < kb, "{a} {b}");
            assert_eq!(a == b, ka == kb, "{a} {b}");
        }
    }
}

#[test]
fn tests_on_patterns_agree_with_numbers() {
    for a in samples() {
        assert_eq!(positive(a.to_bits()), a > 0.0, "{a}");
        assert!(!nan(a.to_bits()));
        assert_eq!(far_from_one(a.to_bits()), (a - 1.0).abs() > f32::EPSILON, "{a}");
        let bounded = f32::from_bits(at_least(a.to_bits(), F32_1E_MINUS_9));
        assert_eq!(bounded, a.max(1e-9), "{a}");
    }
    let n = f32::NAN.to_bits();
    assert!(nan(n) && nan(n | 0x8000_0000));
    assert!(!positive(n));
    assert!(!far_from_one(n));
    assert_eq!(at_least(n, F32_1E_MINUS_9), F32_1E_MINUS_9);
}

#[test]
fn names_are_put_together() {
    assert_eq!(decimal_string(0), "0");
    assert_eq!(decimal_string(907), "907");
    assert_eq!(decimal_string(usize::MAX), usize::MAX.to_string());
    assert_eq!(joined("llama", ".block_count"), "llama.block_count");
    assert_eq!(block_name(12, ".attn_q.weight"), "blk.12.attn_q.weight");
    assert!(same_text("gelu", "gelu"));
    assert!(!same_text("gelu", "gel"));
    assert!(starts_with("gemma2", "gemma"));
    assert!(!starts_with("gem", "gemma"));
    assert!(starts_with("x", ""));
}

#[test]
fn tables_keep_the_latest_value() {
    let mut t = NameTable::new();
    t.insert("a".to_string(), 1u32);
    t.insert("b".to_string(), 2);
    t.insert("a".to_string(), 3);
    assert_eq!(t.get("a"), Some(&3));
    assert_eq!(t.get("b"), Some(&2));
    assert!(t.get("c").is_none());
    assert!(t.contains("b") && !t.contains("c"));
}
