//! Experts: shapes, routing, and what comes out when the routed experts run.

use oxillama_arch::bits::F32_ONE;
use oxillama_arch::common::moe::{select_experts, Expert, MoeFfn};
use oxillama_arch::error::{ArchError, ArchResult};

fn bits(v: Vec<f32>) -> Vec<u32> {
    v.into_iter().map(f32::to_bits).collect()
}

fn dot(row: &[u32], x: &[f32]) -> f32 {
    row.iter().zip(x).map(|(w, x)| f32::from_bits(*w) * x).sum()
}

/// Runs one expert on checked weights.
fn run_expert(e: &Expert, input: &[f32], output: &mut [f32]) -> ArchResult<()> {
    let rows = e.forward()?;
    let h = e.hidden_size;
    let inner: Vec<f32> = rows
        .inner
        .iter()
        .map(|&r| {
            let g = dot(&e.gate[r..r + h], input);
            g / (1.0 + (-g).exp()) * dot(&e.up[r..r + h], input)
        })
        .collect();
    for (o, &r) in output.iter_mut().zip(&rows.output) {
        *o = dot(&e.down[r..r + inner.len()], &inner);
    }
    Ok(())
}

/// Runs the experts that a token is routed to and mixes their outputs.
fn run_moe(moe: &MoeFfn, input: &[f32], output: &mut [f32]) -> ArchResult<()> {
    moe.validate()?;
    let h = moe.hidden_size;
    let logits: Vec<f32> =
        moe.router_rows().iter().map(|&r| dot(&moe.router[r..r + h], input)).collect();
    let max = logits.iter().copied().fold(f32::NEG_INFINITY, f32::max);
    let mut weights: Vec<f32> = logits.iter().map(|l| (l - max).exp()).collect();
    let sum: f32 = weights.iter().sum();
    for w in weights.iter_mut() {
        *w /= sum;
    }
    let picked = moe.route(&bits(weights.clone()))?;
    let selected: f32 = picked.iter().map(|&e| weights[e]).sum();
    output.fill(0.0);
    let mut part = vec![0.0f32; h];
    for &e in &picked {
        run_expert(&moe.experts[e], input, &mut part)?;
        for (o, p) in output.iter_mut().zip(&part) {
            *o += weights[e] / selected * p;
        }
    }
    Ok(())
}

fn make_expert(h: usize, n: usize) -> Expert {
    Expert {
        gate: vec![F32_ONE; n * h],
        up: vec![F32_ONE; n * h],
        down: vec![F32_ONE; h * n],
        hidden_size: h,
        intermediate_size: n,
    }
}

#[test]
fn test_expert_forward_shape() {
    let e = make_expert(4, 8);
    let input = vec![1.0f32; 4];
    let mut output = vec![0.0f32; 4];
    run_expert(&e, &input, &mut output)
        .expect("expert forward should succeed");
    // With all-ones weights, output should be non-zero
    assert!(
        output.iter().any(|v| v.abs() > 1e-6),
        "output should have non-zero elements, got {output:?}"
    );
}

#[test]
fn test_expert_forward_silu_zero_input() {
    // With all-zero input, gate and up projections are zero, so output is zero.
    let e = make_expert(4, 8);
    let input = vec![0.0f32; 4];
    let mut output = vec![1.0f32; 4]; // pre-fill with non-zero
    run_expert(&e, &input, &mut output)
        .expect("expert forward should succeed");
    for (i, &v) in output.iter().enumerate() {
        assert!(
            v.abs() < 1e-6,
            "output[{i}] = {v} should be ~0 for zero input"
        );
    }
}

#[test]
fn test_expert_invalid_gate_size_errors() {
    let e = Expert {
        gate: vec![F32_ONE; 3], // wrong size (should be 4*8 = 32)
        up: vec![F32_ONE; 32],
        down: vec![F32_ONE; 32],
        hidden_size: 4,
        intermediate_size: 8,
    };
    let input = vec![1.0f32; 4];
    let mut output = vec![0.0f32; 4];
    assert!(
        run_expert(&e, &input, &mut output).is_err(),
        "mismatched gate size should return error"
    );
}

#[test]
fn test_moe_ffn_top1_routes_to_single_expert() {
    let h = 4;
    let n = 8;
    let num_experts = 4;
    // Router: only expert 0 row[0] = 1.0, all others zero.
    // For input [1,0,0,0], router logit for expert 0 is 1.0, rest are 0.0.
    // Softmax will strongly prefer expert 0.
    let mut router = vec![0.0f32; num_experts * h];
    router[0] = 1.0; // expert 0, dimension 0

    let experts: Vec<Expert> = (0..num_experts).map(|_| make_expert(h, n)).collect();
    let moe = MoeFfn {
        router: bits(router),
        experts,
        top_k: 1,
        num_experts,
        hidden_size: h,
    };

    let input = vec![1.0f32, 0.0, 0.0, 0.0];
    let mut output = vec![0.0f32; h];
    run_moe(&moe, &input, &mut output)
        .expect("MoE forward should succeed");
    assert!(
        output.iter().any(|v| v.abs() > 1e-6),
        "top-1 MoE output should be non-zero, got {output:?}"
    );
}

#[test]
fn test_moe_ffn_top2_combines_experts() {
    let h = 4;
    let n = 4;
    let num_experts = 4;
    // Uniform router weights → all experts get equal logits → equal softmax.
    // top-2 selects any 2; renormalised weights are 0.5 each.
    let router = vec![1.0f32; num_experts * h];
    let experts: Vec<Expert> = (0..num_experts).map(|_| make_expert(h, n)).collect();
    let moe = MoeFfn {
        router: bits(router),
        experts,
        top_k: 2,
        num_experts,
        hidden_size: h,
    };

    let input = vec![1.0f32; h];
    let mut output = vec![0.0f32; h];
    run_moe(&moe, &input, &mut output)
        .expect("top-2 MoE forward should succeed");
    assert!(
        output.iter().any(|v| v.abs() > 1e-6),
        "top-2 MoE output should be non-zero, got {output:?}"
    );
}

#[test]
fn test_moe_ffn_top_k_exceeds_num_experts_clamps() {
    // top_k = 10 but only 4 experts: should clamp to 4 without panic.
    let h = 4;
    let n = 4;
    let num_experts = 4;
    let router = vec![1.0f32; num_experts * h];
    let experts: Vec<Expert> = (0..num_experts).map(|_| make_expert(h, n)).collect();
    let moe = MoeFfn {
        router: bits(router),
        experts,
        top_k: 10,
        num_experts,
        hidden_size: h,
    };

    let input = vec![1.0f32; h];
    let mut output = vec![0.0f32; h];
    run_moe(&moe, &input, &mut output)
        .expect("top_k > num_experts should clamp, not panic");
}

#[test]
fn test_moe_ffn_zero_top_k_errors() {
    let h = 4;
    let n = 4;
    let num_experts = 2;
    let router = vec![1.0f32; num_experts * h];
    let experts: Vec<Expert> = (0..num_experts).map(|_| make_expert(h, n)).collect();
    let moe = MoeFfn {
        router: bits(router),
        experts,
        top_k: 0, // invalid
        num_experts,
        hidden_size: h,
    };

    let input = vec![1.0f32; h];
    let mut output = vec![0.0f32; h];
    assert!(
        run_moe(&moe, &input, &mut output).is_err(),
        "top_k = 0 should return an error"
    );
}

#[test]
fn test_moe_ffn_invalid_router_size_errors() {
    let h = 4;
    let n = 4;
    let num_experts = 2;
    // Wrong router size
    let router = vec![1.0f32; 3]; // should be 2*4 = 8
    let experts: Vec<Expert> = (0..num_experts).map(|_| make_expert(h, n)).collect();
    let moe = MoeFfn {
        router: bits(router),
        experts,
        top_k: 1,
        num_experts,
        hidden_size: h,
    };

    let input = vec![1.0f32; h];
    let mut output = vec![0.0f32; h];
    assert!(
        run_moe(&moe, &input, &mut output).is_err(),
        "mismatched router size should return error"
    );
}

#[test]
fn test_moe_ffn_output_is_deterministic() {
    // Running forward twice on same input produces identical output.
    let h = 4;
    let n = 4;
    let num_experts = 4;
    let router = vec![0.5f32; num_experts * h];
    let experts: Vec<Expert> = (0..num_experts).map(|_| make_expert(h, n)).collect();
    let moe = MoeFfn {
        router: bits(router),
        experts,
        top_k: 2,
        num_experts,
        hidden_size: h,
    };

    let input = vec![0.3f32, 0.7, 0.1, 0.9];
    let mut output1 = vec![0.0f32; h];
    let mut output2 = vec![0.0f32; h];
    run_moe(&moe, &input, &mut output1).expect("first forward");
    run_moe(&moe, &input, &mut output2).expect("second forward");
    for (a, b) in output1.iter().zip(output2.iter()) {
        assert!(
            (a - b).abs() < 1e-9,
            "forward should be deterministic: {a} != {b}"
        );
    }
}

/// Verify that MoeFfn top-2 routing selects the two experts with the
/// highest router scores for a crafted input.
///
/// Router layout: `router[expert, dim]` row-major.
/// We set `router[2, 0] = 10.0` and `router[5, 0] = 8.0`, all others 0.
/// For `input = [1, 0, 0, 0]`, expert 2 gets logit 10 and expert 5 gets 8.
/// After softmax, experts 2 and 5 dominate → top-2 must be {2, 5}.
#[test]
fn mixtral_top2_routing_selects_expected_experts() {
    let hidden_size = 4;
    let intermediate_size = 8;
    let num_experts = 8;
    let top_k = 2;

    // Craft router so expert 2 and 5 strongly dominate.
    let mut router = vec![0.0f32; num_experts * hidden_size];
    router[2 * hidden_size] = 10.0; // expert 2, first dim
    router[5 * hidden_size] = 8.0; // expert 5, first dim

    // Build identifiable experts: each returns expert_index in output[0].
    let experts: Vec<_> = (0..num_experts)
        .map(|e| {
            let mut gate = vec![0.0f32; intermediate_size * hidden_size];
            let mut up = vec![0.0f32; intermediate_size * hidden_size];
            let mut down = vec![0.0f32; hidden_size * intermediate_size];
            // gate[0,0] = e+1, up[0,0] = 1 → out[0] ≈ silu(e+1) * down[0,0]
            gate[0] = (e + 1) as f32;
            up[0] = 1.0;
            down[0] = 1.0;
            Expert {
                gate: bits(gate),
                up: bits(up),
                down: bits(down),
                hidden_size,
                intermediate_size,
            }
        })
        .collect();

    let moe = MoeFfn {
        router: bits(router),
        experts,
        top_k,
        num_experts,
        hidden_size,
    };

    let input = vec![1.0f32, 0.0, 0.0, 0.0];
    let mut output = vec![0.0f32; hidden_size];
    run_moe(&moe, &input, &mut output)
        .expect("MoeFfn forward must succeed");

    // Expert 2 (e=2): gate[0,0]=3, up[0,0]=1, down[0,0]=1
    //   → intermediate[0] = silu(3 * 1) * 1 = silu(3)
    //   → expert2_out[0] = silu(3) * 1 = silu(3)
    // Expert 5 (e=5): gate[0,0]=6, up[0,0]=1, down[0,0]=1
    //   → intermediate[0] = silu(6 * 1) * 1 = silu(6)
    //   → expert5_out[0] = silu(6) * 1 = silu(6)
    //
    // Router logits (for input=[1,0,0,0]): expert2=10, expert5=8, others=0
    //   softmax_sum = exp(10) + exp(8) + 6*exp(0)
    //   raw_w2 = exp(10) / softmax_sum
    //   raw_w5 = exp(8) / softmax_sum
    //   After top-2 renorm: w2 = raw_w2/(raw_w2+raw_w5), w5 = raw_w5/(raw_w2+raw_w5)
    //   Expected: output[0] = w2*silu(3) + w5*silu(6)
    let silu3 = 3.0f32 / (1.0 + (-3.0f32).exp());
    let silu6 = 6.0f32 / (1.0 + (-6.0f32).exp());
    let softmax_sum = 10.0f32.exp() + 8.0f32.exp() + 6.0_f32;
    let raw_w2 = 10.0f32.exp() / softmax_sum;
    let raw_w5 = 8.0f32.exp() / softmax_sum;
    let renorm = raw_w2 + raw_w5;
    let w2 = raw_w2 / renorm;
    let w5 = raw_w5 / renorm;
    let expected = w2 * silu3 + w5 * silu6;
    let tolerance = 1e-4_f32;
    assert!(
        (output[0] - expected).abs() < tolerance,
        "top-2 should select experts 2 and 5; output[0]={} but expected {} (±{})",
        output[0],
        expected,
        tolerance
    );
    // Sanity: output must be significantly larger than what the worst expert
    // (expert 0 alone, with gate[0,0]=1) would produce.
    let silu1 = 1.0f32 / (1.0 + (-1.0f32).exp());
    assert!(
        output[0] > silu1,
        "output[0]={} should exceed silu(1)={} (contribution of weakest expert alone)",
        output[0],
        silu1
    );
}

/// Router softmax output must sum to 1.0 (verified through MoeFfn internals).
///
/// We test this indirectly: with uniform router weights, all 8 experts get
/// equal scores → softmax is uniform (each 0.125). Top-2 renormalised
/// weights each become 0.5. Output should be non-zero and consistent.
#[test]
fn mixtral_load_balance_weights_normalize() {
    let hidden_size = 4;
    let intermediate_size = 4;
    let num_experts = 8;
    let top_k = 2;

    let router = vec![1.0f32; num_experts * hidden_size];
    let experts: Vec<_> = (0..num_experts)
        .map(|_| Expert {
            gate: vec![F32_ONE; intermediate_size * hidden_size],
            up: vec![F32_ONE; intermediate_size * hidden_size],
            down: vec![F32_ONE; hidden_size * intermediate_size],
            hidden_size,
            intermediate_size,
        })
        .collect();

    let moe = MoeFfn {
        router: bits(router),
        experts,
        top_k,
        num_experts,
        hidden_size,
    };

    let input = vec![0.5f32; hidden_size];
    let mut output1 = vec![0.0f32; hidden_size];
    let mut output2 = vec![0.0f32; hidden_size];

    run_moe(&moe, &input, &mut output1)
        .expect("first forward must succeed");
    run_moe(&moe, &input, &mut output2)
        .expect("second forward must succeed");

    // Determinism: two runs on same input yield identical results.
    for (a, b) in output1.iter().zip(output2.iter()) {
        assert!(
            (a - b).abs() < 1e-8,
            "MoE output must be deterministic: {a} != {b}"
        );
    }

    // Non-trivial: with uniform experts and input, output is non-zero.
    assert!(
        output1.iter().any(|&v| v.abs() > 1e-6),
        "uniform MoE output should be non-zero, got {output1:?}"
    );
}

#[test]
fn shapes_are_reported() {
    let mut e = make_expert(4, 8);
    e.up.pop();
    match e.validate() {
        Err(ArchError::InvalidShape { name, expected, got }) => {
            assert_eq!(name, "expert.up");
            assert_eq!(expected, vec![8, 4]);
            assert_eq!(got, vec![31]);
        }
        other => panic!("unexpected answer: {other:?}"),
    }
    let moe = MoeFfn {
        router: vec![F32_ONE; 8],
        experts: vec![make_expert(4, 8)],
        top_k: 1,
        num_experts: 2,
        hidden_size: 4,
    };
    match moe.validate() {
        Err(ArchError::InvalidShape { name, expected, got }) => {
            assert_eq!(name, "moe.experts");
            assert_eq!(expected, vec![2]);
            assert_eq!(got, vec![1]);
        }
        other => panic!("unexpected answer: {other:?}"),
    }
}

#[test]
fn only_chosen_experts_are_checked() {
    let mut bad = make_expert(4, 8);
    bad.down.clear();
    let moe = MoeFfn {
        router: vec![F32_ONE; 8],
        experts: vec![make_expert(4, 8), bad],
        top_k: 1,
        num_experts: 2,
        hidden_size: 4,
    };
    assert_eq!(moe.route(&bits(vec![0.75, 0.25])).expect("good expert"), vec![0]);
    assert!(moe.route(&bits(vec![0.25, 0.75])).is_err());
}

#[test]
fn heaviest_experts_come_first() {
    let weights = bits(vec![0.1, -0.5, 0.4, 0.0, 0.3]);
    assert_eq!(select_experts(&weights, 3), vec![2, 4, 0]);
    assert_eq!(select_experts(&weights, 0), Vec::<usize>::new());
    let mut all = select_experts(&weights, 9);
    assert_eq!(all, vec![2, 4, 0, 3, 1]);
    all.sort();
    assert_eq!(all, vec![0, 1, 2, 3, 4]);
}
