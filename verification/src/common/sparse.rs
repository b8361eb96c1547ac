//! The weights of sparse feed-forward layers with routed and shared experts.

use crate::bits::{F32_1E_MINUS_5, F32_ONE, F32_ZERO};
use crate::common::linear::{QuantLinear, QuantTensor};
use crate::common::moe::{pair, Expert};
use crate::common::norm::RmsNorm;
use crate::common::sizes::filled;
use crate::gguf::TensorType;
use vstd::prelude::*;

verus! {

/// How a router's outputs become weights.
#[derive(Debug, Clone, Copy, PartialEq, Eq)]
pub enum ScoringMode {
    /// Softmax over all experts.
    Softmax,
    /// A sigmoid for each expert, with a bias for the choice.
    SigmoidWithBias,
}

/// The parameters of a sparse layer.
#[derive(Debug, Clone, Copy, PartialEq, Eq)]
pub struct MoeConfig {
    /// Size of a hidden state.
    pub hidden_size: usize,
    /// Inner size of a routed expert.
    pub expert_intermediate_size: usize,
    /// Number of experts that every token passes.
    pub n_shared_experts: usize,
    /// Number of experts that tokens are routed to.
    pub n_routed_experts: usize,
    /// Number of routed experts that one token passes.
    pub top_k: usize,
    /// Scale of the routed experts' weights, as a pattern.
    pub routed_scaling_factor: u32,
    /// How the router's outputs become weights.
    pub scoring_mode: ScoringMode,
    /// Inner size of a shared expert.
    pub shared_expert_intermediate_size: usize,
}

/// The weights of a sparse layer.
#[derive(Debug)]
pub struct MoeWeights {
    /// The router, one row for each routed expert.
    pub router: Vec<u32>,
    /// The routed experts.
    pub routed_experts: Vec<Expert>,
    /// The experts that every token passes.
    pub shared_experts: Vec<Expert>,
    /// A bias for the choice of each routed expert.
    pub expert_bias: Option<Vec<u32>>,
}

/// The parameters of a layer of routed experts only, weighted by a softmax.
pub open spec fn routed_config(
    hidden: usize,
    inner: usize,
    experts: usize,
    top_k: usize,
) -> MoeConfig {
    MoeConfig {
        hidden_size: hidden,
        expert_intermediate_size: inner,
        n_shared_experts: 0,
        n_routed_experts: experts,
        top_k,
        routed_scaling_factor: F32_ONE,
        scoring_mode: ScoringMode::Softmax,
        shared_expert_intermediate_size: inner,
    }
}

/// The parameters of a layer of routed experts only.
pub fn routed_only(hidden: usize, inner: usize, experts: usize, top_k: usize) -> (c: MoeConfig)
    ensures
        c == routed_config(hidden, inner, experts, top_k),
{
    MoeConfig {
        hidden_size: hidden,
        expert_intermediate_size: inner,
        n_shared_experts: 0,
        n_routed_experts: experts,
        top_k,
        routed_scaling_factor: F32_ONE,
        scoring_mode: ScoringMode::Softmax,
        shared_expert_intermediate_size: inner,
    }
}

/// A sequence of one value.
pub open spec fn constant(value: u32, n: int) -> Seq<u32> {
    Seq::new(n as nat, |i: int| value)
}

/// Whether a linear layer maps everything to zero, without bias or correction.
pub open spec fn is_zero_linear(l: QuantLinear, rows: int, cols: int) -> bool {
    &&& l.weight.data@ == Seq::new((rows * cols * 4) as nat, |i: int| 0u8)
    &&& l.weight.shape@.len() == 2
    &&& l.weight.shape@[0] == rows
    &&& l.weight.shape@[1] == cols
    &&& l.weight.tensor_type == TensorType::F32
    &&& l.bias is None
    &&& l.lora is None
    &&& l.out_features == rows
    &&& l.in_features == cols
}

/// A linear layer of zeros.
pub fn zero_linear(rows: usize, cols: usize) -> (l: QuantLinear)
    requires
        rows * cols * 4 <= usize::MAX,
    ensures
        is_zero_linear(l, rows as int, cols as int),
{
    proof {
        assert(rows * cols >= 0) by (nonlinear_arith);
    }
    let n: usize = rows * cols * 4;
    let data: Vec<u8> = vec![0u8; n];
    assert(data@ =~= Seq::new(n as nat, |i: int| 0u8));
    let weight = QuantTensor { data, shape: pair(rows, cols), tensor_type: TensorType::F32 };
    QuantLinear::new(weight, None)
}

/// Whether a norm scales by one, with an epsilon of `1e-5`.
pub open spec fn is_unit_norm(n: RmsNorm, len: int) -> bool {
    n.weight@ == constant(F32_ONE, len) && n.eps == F32_1E_MINUS_5
}

/// A norm that scales by one.
pub fn unit_norm(len: usize) -> (n: RmsNorm)
    ensures
        is_unit_norm(n, len as int),
{
    RmsNorm::new(filled(F32_ONE, len), F32_1E_MINUS_5)
}

/// Whether an expert maps everything to zero.
pub open spec fn is_zero_expert(e: Expert, hidden: usize, inner: usize) -> bool {
    &&& e.gate@ == constant(F32_ZERO, inner * hidden)
    &&& e.up@ == constant(F32_ZERO, inner * hidden)
    &&& e.down@ == constant(F32_ZERO, hidden * inner)
    &&& e.hidden_size == hidden
    &&& e.intermediate_size == inner
}

/// An expert of zeros.
pub fn zero_expert(hidden: usize, inner: usize) -> (e: Expert)
    requires
        inner * hidden <= usize::MAX,
    ensures
        is_zero_expert(e, hidden, inner),
        e.failure() is None,
{
    proof {
        assert(inner * hidden == hidden * inner) by (nonlinear_arith);
    }
    let n: usize = inner * hidden;
    Expert {
        gate: filled(F32_ZERO, n),
        up: filled(F32_ZERO, n),
        down: filled(F32_ZERO, n),
        hidden_size: hidden,
        intermediate_size: inner,
    }
}

/// Whether a sparse layer has only routed experts, and all of them and the
/// router are zero.
pub open spec fn is_zero_moe(w: MoeWeights, hidden: usize, inner: usize, experts: usize) -> bool {
    &&& w.router@ == constant(F32_ZERO, experts * hidden)
    &&& w.routed_experts@.len() == experts
    &&& forall|e: int|
        0 <= e < experts ==> is_zero_expert(#[trigger] w.routed_experts@[e], hidden, inner)
    &&& w.shared_experts@.len() == 0
    &&& w.expert_bias is None
}

/// A sparse layer of zeros.
pub fn zero_moe(hidden: usize, inner: usize, experts: usize) -> (w: MoeWeights)
    requires
        experts * hidden <= usize::MAX,
        inner * hidden <= usize::MAX,
    ensures
        is_zero_moe(w, hidden, inner, experts),
{
    let router = filled(F32_ZERO, experts * hidden);
    let mut routed_experts: Vec<Expert> = Vec::new();
    let mut e: usize = 0;
    while e < experts
        invariant
            e <= experts,
            inner * hidden <= usize::MAX,
            routed_experts@.len() == e,
            forall|j: int|
                0 <= j < e ==> is_zero_expert(#[trigger] routed_experts@[j], hidden, inner),
        decreases experts - e,
    {
        routed_experts.push(zero_expert(hidden, inner));
        e = e + 1;
    }
    MoeWeights { router, routed_experts, shared_experts: Vec::new(), expert_bias: None }
}

/// Whether the weights of a decoder layer with the given heads fit a machine
/// word.
pub open spec fn zero_layer_fits(
    hidden: usize,
    num_heads: usize,
    num_kv_heads: usize,
    head_dim: usize,
    experts: usize,
    inner: usize,
) -> bool {
    &&& num_heads * head_dim <= usize::MAX
    &&& num_kv_heads * head_dim <= usize::MAX
    &&& num_heads * head_dim * hidden * 4 <= usize::MAX
    &&& num_kv_heads * head_dim * hidden * 4 <= usize::MAX
    &&& experts * hidden <= usize::MAX
    &&& inner * hidden <= usize::MAX
}

/// A layer of routed experts only has no shared ones, weights its experts by a
/// softmax and does not scale them.
pub proof fn law_routed_layers_have_no_shared_experts(
    hidden: usize,
    inner: usize,
    experts: usize,
    top_k: usize,
)
    ensures
        routed_config(hidden, inner, experts, top_k).hidden_size == hidden,
        routed_config(hidden, inner, experts, top_k).expert_intermediate_size == inner,
        routed_config(hidden, inner, experts, top_k).n_shared_experts == 0,
        routed_config(hidden, inner, experts, top_k).n_routed_experts == experts,
        routed_config(hidden, inner, experts, top_k).top_k == top_k,
        routed_config(hidden, inner, experts, top_k).routed_scaling_factor == 0x3F80_0000,
        routed_config(hidden, inner, experts, top_k).scoring_mode == ScoringMode::Softmax,
        routed_config(hidden, inner, experts, top_k).shared_expert_intermediate_size == inner,
{
}

/// A linear layer of zeros has four zero bytes for each weight, and as many
/// outputs and inputs as rows and columns.
pub proof fn law_zero_layers_hold_zeros(l: QuantLinear, rows: int, cols: int, k: int)
    requires
        is_zero_linear(l, rows, cols),
        0 <= k < 4 * (rows * cols),
    ensures
        l.weight.data@.len() == 4 * (rows * cols),
        l.weight.data@[k] == 0,
        l.weight.shape@ == seq![rows as usize, cols as usize],
        l.out_features == rows,
        l.in_features == cols,
        l.bias is None,
        l.lora is None,
{
    assert(l.weight.shape@ =~= seq![rows as usize, cols as usize]);
}

/// A norm that scales by one has the pattern of one for every element, and the
/// epsilon `1e-5`.
pub proof fn law_unit_norms_hold_ones(n: RmsNorm, len: int, k: int)
    requires
        is_unit_norm(n, len),
        0 <= k < len,
    ensures
        n.weight@.len() == len,
        n.weight@[k] == 0x3F80_0000,
        n.eps == 0x3727_C5AC,
{
}

/// The experts of a sparse layer of zeros are whole experts, and all their weights
/// are zero, as are those of the router.
pub proof fn law_zero_experts_hold_zeros(
    w: MoeWeights,
    hidden: usize,
    inner: usize,
    experts: usize,
    e: int,
)
    requires
        is_zero_moe(w, hidden, inner, experts),
        0 <= e < experts,
    ensures
        w.router@ == Seq::new((experts * hidden) as nat, |k: int| 0u32),
        w.routed_experts@.len() == experts,
        w.routed_experts@[e].gate@ == Seq::new((inner * hidden) as nat, |k: int| 0u32),
        w.routed_experts@[e].up@ == Seq::new((inner * hidden) as nat, |k: int| 0u32),
        w.routed_experts@[e].down@ == Seq::new((inner * hidden) as nat, |k: int| 0u32),
        w.routed_experts@[e].failure() is None,
        w.shared_experts@.len() == 0,
        w.expert_bias is None,
{
    let x = w.routed_experts@[e];
    assert(is_zero_expert(x, hidden, inner));
    assert(hidden * inner == inner * hidden && inner * hidden >= 0) by (nonlinear_arith);
    assert(w.router@ =~= Seq::new((experts * hidden) as nat, |k: int| 0u32));
    assert(x.gate@ =~= Seq::new((inner * hidden) as nat, |k: int| 0u32));
    assert(x.up@ =~= Seq::new((inner * hidden) as nat, |k: int| 0u32));
    assert(x.down@ =~= Seq::new((inner * hidden) as nat, |k: int| 0u32));
}

} // verus!
