//! DeepSeek: a decoder with latent attention and sparse experts.

use crate::bits::F32_1E_MINUS_5;
use crate::common::embedding::{rows_reached, tokens_failure};
use crate::common::linear::QuantLinear;
use crate::common::load::{
    choose_name, is_linear, is_norm, load_needed_linear, load_needed_norm, load_needed_values,
    name_of, needed_bytes_failure, needed_values_failure, values_of,
};
use crate::common::mla::{MlaConfig, MlaLatentCache, MlaWeights};
use crate::common::moe::Expert;
use crate::common::norm::RmsNorm;
use crate::common::pass::{begin_pass, layer_failed, Order, Pass};
use crate::common::rope::{standard, RopeTable};
use crate::common::sparse::{MoeConfig, MoeWeights, ScoringMode};
use crate::config::{
    deepseek_config_of, model_config_of, DeepSeekConfig, ModelConfig, ModelConfigView,
};
use crate::error::{
    first_failure, first_of, follows, law_first_failing_part_is_reported, lemma_first_failure,
    ArchError, ArchErrorView, ArchResult,
};
use crate::gguf::{GgufModel, TensorMap};
use crate::metadata::{meta_text, MetadataMap};
use crate::text::{block_name, block_tensor, decimal, decimal_string, joined};
use vstd::prelude::*;

verus! {

/// Number of leading layers with a dense feed-forward network in models of the
/// second generation.
pub const N_DENSE_LAYERS: usize = 1;

/// The weights of a dense feed-forward network.
#[derive(Debug)]
pub struct DenseFfn {
    /// Gate projection.
    pub gate: QuantLinear,
    /// Up projection.
    pub up: QuantLinear,
    /// Down projection.
    pub down: QuantLinear,
}

/// The feed-forward network of a layer.
#[derive(Debug)]
pub enum FfnKind {
    /// A dense network.
    Dense(Box<DenseFfn>),
    /// Experts.
    Moe {
        /// The weights.
        weights: Box<MoeWeights>,
        /// The parameters.
        config: MoeConfig,
    },
}

/// One layer: its weights, and its cache.
#[derive(Debug)]
pub struct DeepSeekLayer {
    /// Norm before attention.
    pub attn_norm: RmsNorm,
    /// The weights of attention.
    pub mla_weights: MlaWeights,
    /// The parameters of attention.
    pub mla_config: MlaConfig,
    /// The cache of attention.
    pub mla_cache: MlaLatentCache,
    /// Norm before the feed-forward network.
    pub ffn_norm: RmsNorm,
    /// The feed-forward network.
    pub ffn: FfnKind,
}

impl DeepSeekLayer {
    /// Whether only the cache may differ from another layer.
    pub open spec fn same_weights(&self, other: &DeepSeekLayer) -> bool {
        &&& self.attn_norm == other.attn_norm
        &&& self.mla_weights == other.mla_weights
        &&& self.mla_config == other.mla_config
        &&& self.mla_cache.max_seq_len == other.mla_cache.max_seq_len
        &&& self.ffn_norm == other.ffn_norm
        &&& self.ffn == other.ffn
    }

    fn forget(&mut self)
        ensures
            final(self).same_weights(old(self)),
            final(self).mla_cache.is_empty(),
    {
        self.mla_cache.clear();
    }
}

/// A loaded model, and the position of the next token.
#[derive(Debug)]
pub struct DeepSeekModel {
    /// The configuration that all families share.
    pub config: ModelConfig,
    /// The family's own configuration.
    pub ds_config: DeepSeekConfig,
    /// The embedding table, one row for each token.
    pub token_embd: Vec<u32>,
    /// The layers.
    pub layers: Vec<DeepSeekLayer>,
    /// Norm before the output projection.
    pub output_norm: RmsNorm,
    /// Output projection.
    pub output: QuantLinear,
    /// The position of the next token.
    pub current_pos: usize,
}

impl DeepSeekModel {
    /// Whether only the layers and the position may differ from another model.
    pub open spec fn same_frame(&self, other: &DeepSeekModel) -> bool {
        &&& self.config == other.config
        &&& self.ds_config == other.ds_config
        &&& self.token_embd == other.token_embd
        &&& self.output_norm == other.output_norm
        &&& self.output == other.output
    }

    /// A model of given weights, at the beginning of a sequence.
    pub fn new(
        config: ModelConfig,
        ds_config: DeepSeekConfig,
        token_embd: Vec<u32>,
        layers: Vec<DeepSeekLayer>,
        output_norm: RmsNorm,
        output: QuantLinear,
    ) -> (m: Self)
        ensures
            m.config == config,
            m.ds_config == ds_config,
            m.token_embd == token_embd,
            m.layers == layers,
            m.output_norm == output_norm,
            m.output == output,
            m.current_pos == 0,
    {
        DeepSeekModel { config, ds_config, token_embd, layers, output_norm, output, current_pos: 0 }
    }

    /// Goes back to the beginning of a sequence: forgets the tokens that the
    /// layers have cached.
    pub fn reset_position(&mut self)
        ensures
            final(self).same_frame(old(self)),
            final(self).current_pos == 0,
            final(self).layers@.len() == old(self).layers@.len(),
            forall|i: int|
                0 <= i < final(self).layers@.len() ==> {
                    &&& (#[trigger] final(self).layers@[i]).same_weights(&old(self).layers@[i])
                    &&& final(self).layers@[i].mla_cache.is_empty()
                },
    {
        self.current_pos = 0;
        let ghost before = self.layers@;
        let mut i: usize = 0;
        while i < self.layers.len()
            invariant
                i <= self.layers@.len(),
                before == old(self).layers@,
                self.layers@.len() == before.len(),
                self.same_frame(old(self)),
                self.current_pos == 0,
                forall|j: int|
                    0 <= j < i ==> {
                        &&& (#[trigger] self.layers@[j]).same_weights(&before[j])
                        &&& self.layers@[j].mla_cache.is_empty()
                    },
                forall|j: int| i <= j < before.len() ==> #[trigger] self.layers@[j] == before[j],
            decreases self.layers@.len() - i,
        {
            self.layers[i].forget();
            i = i + 1;
        }
    }

    /// Begins a pass for the logits after the last token.
    pub fn forward(&self, tokens: &Vec<u32>) -> (r: ArchResult<Pass>)
        requires
            rows_reached(
                self.token_embd@,
                self.config.hidden_size as nat,
                self.config.vocab_size as nat,
                tokens@,
            ),
            tokens_failure(tokens@, self.config.vocab_size as nat, "forward"@) is None
                ==> self.current_pos + tokens@.len() <= usize::MAX,
        ensures
            follows(r, tokens_failure(tokens@, self.config.vocab_size as nat, "forward"@)),
            r matches Ok(p) ==> p.begins(
                Order::Together,
                self.layers@.len(),
                self.current_pos as nat,
                self.token_embd@,
                self.config.hidden_size as nat,
                tokens@,
            ),
    {
        begin_pass(
            &self.token_embd,
            self.config.hidden_size,
            self.config.vocab_size,
            tokens,
            "forward",
            Order::Together,
            self.layers.len(),
            self.current_pos,
        )
    }

    /// Begins a pass for the embedding of the last token.
    pub fn embed(&self, tokens: &Vec<u32>) -> (r: ArchResult<Pass>)
        requires
            rows_reached(
                self.token_embd@,
                self.config.hidden_size as nat,
                self.config.vocab_size as nat,
                tokens@,
            ),
            tokens_failure(tokens@, self.config.vocab_size as nat, "embed"@) is None
                ==> self.current_pos + tokens@.len() <= usize::MAX,
        ensures
            follows(r, tokens_failure(tokens@, self.config.vocab_size as nat, "embed"@)),
            r matches Ok(p) ==> p.begins(
                Order::Together,
                self.layers@.len(),
                self.current_pos as nat,
                self.token_embd@,
                self.config.hidden_size as nat,
                tokens@,
            ),
    {
        begin_pass(
            &self.token_embd,
            self.config.hidden_size,
            self.config.vocab_size,
            tokens,
            "embed",
            Order::Together,
            self.layers.len(),
            self.current_pos,
        )
    }

    /// Ends a pass that succeeded: the next token comes after its tokens. A
    /// pass that failed is not ended, and leaves the position as it was.
    pub fn end_pass(&mut self, pass: &Pass)
        requires
            old(self).current_pos + pass.shape.tokens <= usize::MAX,
        ensures
            final(self).same_frame(old(self)),
            final(self).layers == old(self).layers,
            final(self).current_pos == old(self).current_pos + pass.shape.tokens,
    {
        self.current_pos = self.current_pos + pass.shape.tokens;
    }

    /// Number of tokens in the vocabulary: the length of the logits.
    pub fn vocab_size(&self) -> (n: usize)
        ensures
            n == self.config.vocab_size,
    {
        self.config.vocab_size
    }

    /// Greatest number of tokens in a context.
    pub fn max_context_length(&self) -> (n: usize)
        ensures
            n == self.config.max_context_length,
    {
        self.config.max_context_length
    }

    /// Size of a hidden state: the length of an embedding.
    pub fn hidden_size(&self) -> (n: usize)
        ensures
            n == self.config.hidden_size,
    {
        self.config.hidden_size
    }
}

/// The failure of a layer's attention.
pub fn attention_failed(layer: usize, message: &str) -> (e: ArchError)
    ensures
        e@ == (ArchErrorView::ForwardPassError { layer, message: "MLA"@ + ": "@ + message@ }),
{
    layer_failed(layer, "MLA", message)
}

/// The failure to find a kernel for a projection of a layer's dense network.
pub fn layer_dispatcher_kernel(layer: usize, name: &str, message: &str) -> (e: ArchError)
    ensures
        e@ == (ArchErrorView::ForwardPassError {
            layer,
            message: "kernel dispatch for "@ + name@ + ": "@ + message@,
        }),
{
    layer_failed(layer, joined("kernel dispatch for ", name).as_str(), message)
}

/// The tensor that compresses the query in block `i`.
pub open spec fn q_a_name(m: TensorMap, i: nat) -> Seq<char> {
    name_of(
        m,
        block_tensor(i, ".attn_q_a_proj.weight"@),
        block_tensor(i, ".attn_q_a.weight"@),
    )
}

/// The tensor that norms the compressed query in block `i`.
pub open spec fn q_norm_name(m: TensorMap, i: nat) -> Seq<char> {
    name_of(
        m,
        block_tensor(i, ".attn_q_a_norm.weight"@),
        block_tensor(i, ".attn_q_norm.weight"@),
    )
}

/// The tensor that expands the query in block `i`.
pub open spec fn q_b_name(m: TensorMap, i: nat) -> Seq<char> {
    name_of(
        m,
        block_tensor(i, ".attn_q_b_proj.weight"@),
        block_tensor(i, ".attn_q_b.weight"@),
    )
}

/// The tensor that compresses key and value in block `i`.
pub open spec fn kv_a_name(m: TensorMap, i: nat) -> Seq<char> {
    name_of(
        m,
        block_tensor(i, ".attn_kv_a_proj.weight"@),
        block_tensor(i, ".attn_kv_a.weight"@),
    )
}

/// The tensor that norms the compressed key and value in block `i`.
pub open spec fn kv_norm_name(m: TensorMap, i: nat) -> Seq<char> {
    name_of(
        m,
        block_tensor(i, ".attn_kv_a_norm.weight"@),
        block_tensor(i, ".attn_kv_norm.weight"@),
    )
}

/// The tensor that expands key and value in block `i`.
pub open spec fn kv_b_name(m: TensorMap, i: nat) -> Seq<char> {
    name_of(
        m,
        block_tensor(i, ".attn_kv_b_proj.weight"@),
        block_tensor(i, ".attn_kv_b.weight"@),
    )
}

/// Why the attention of block `i` cannot be loaded, if it cannot.
pub open spec fn mla_failure(m: TensorMap, i: nat) -> Option<ArchErrorView> {
    first_of(
        needed_bytes_failure(m, q_a_name(m, i)),
        first_of(
            needed_values_failure(m, q_norm_name(m, i)),
            first_of(
                needed_bytes_failure(m, q_b_name(m, i)),
                first_of(
                    needed_bytes_failure(m, kv_a_name(m, i)),
                    first_of(
                        needed_values_failure(m, kv_norm_name(m, i)),
                        first_of(
                            needed_bytes_failure(m, kv_b_name(m, i)),
                            needed_bytes_failure(m, block_tensor(i, ".attn_output.weight"@)),
                        ),
                    ),
                ),
            ),
        ),
    )
}

/// Whether weights are those of the attention of block `i`.
pub open spec fn is_mla(w: MlaWeights, m: TensorMap, c: MlaConfig, max_seq: nat, i: nat) -> bool {
    &&& is_linear(w.w_q_a, m, q_a_name(m, i))
    &&& is_norm(w.q_a_norm, m, q_norm_name(m, i), F32_1E_MINUS_5)
    &&& is_linear(w.w_q_b, m, q_b_name(m, i))
    &&& is_linear(w.w_kv_a, m, kv_a_name(m, i))
    &&& is_norm(w.kv_a_norm, m, kv_norm_name(m, i), F32_1E_MINUS_5)
    &&& is_linear(w.w_kv_b, m, kv_b_name(m, i))
    &&& is_linear(w.w_o, m, block_tensor(i, ".attn_output.weight"@))
    &&& w.rope.is_table(c.qk_rope_head_dim, max_seq, standard(c.rope_theta))
}

/// Loads the attention of block `i`. Every tensor but the output projection has
/// two names, of which the first is preferred.
fn load_mla_weights(model: &GgufModel, c: &MlaConfig, i: usize, max_seq: usize) -> (r: ArchResult<
    MlaWeights,
>)
    requires
        max_seq * (c.qk_rope_head_dim / 2) <= usize::MAX,
    ensures
        follows(r, mla_failure(model.tensors@, i as nat)),
        r matches Ok(w) ==> is_mla(w, model.tensors@, *c, max_seq as nat, i as nat),
{
    let eps: u32 = F32_1E_MINUS_5;
    let q_a = choose_name(
        model,
        block_name(i, ".attn_q_a_proj.weight"),
        block_name(i, ".attn_q_a.weight"),
    );
    let w_q_a = load_needed_linear(model, q_a.as_str())?;
    let q_norm = choose_name(
        model,
        block_name(i, ".attn_q_a_norm.weight"),
        block_name(i, ".attn_q_norm.weight"),
    );
    let q_a_norm = load_needed_norm(model, q_norm.as_str(), eps)?;
    let q_b = choose_name(
        model,
        block_name(i, ".attn_q_b_proj.weight"),
        block_name(i, ".attn_q_b.weight"),
    );
    let w_q_b = load_needed_linear(model, q_b.as_str())?;
    let kv_a = choose_name(
        model,
        block_name(i, ".attn_kv_a_proj.weight"),
        block_name(i, ".attn_kv_a.weight"),
    );
    let w_kv_a = load_needed_linear(model, kv_a.as_str())?;
    let kv_norm = choose_name(
        model,
        block_name(i, ".attn_kv_a_norm.weight"),
        block_name(i, ".attn_kv_norm.weight"),
    );
    let kv_a_norm = load_needed_norm(model, kv_norm.as_str(), eps)?;
    let kv_b = choose_name(
        model,
        block_name(i, ".attn_kv_b_proj.weight"),
        block_name(i, ".attn_kv_b.weight"),
    );
    let w_kv_b = load_needed_linear(model, kv_b.as_str())?;
    let w_o = load_needed_linear(model, block_name(i, ".attn_output.weight").as_str())?;
    let rope = RopeTable::new_standard(c.qk_rope_head_dim, max_seq, c.rope_theta);
    Ok(MlaWeights { w_q_a, q_a_norm, w_q_b, w_kv_a, kv_a_norm, w_kv_b, w_o, rope })
}

/// The tensor of one projection of expert `e` of block `i`, among the experts
/// of a kind.
pub open spec fn expert_tensor(
    i: nat,
    kind: Seq<char>,
    e: nat,
    projection: Seq<char>,
) -> Seq<char> {
    block_tensor(i, kind + decimal(e) + projection)
}

fn expert_name(i: usize, kind: &str, e: usize, projection: &str) -> (s: String)
    ensures
        s@ == expert_tensor(i as nat, kind@, e as nat, projection@),
{
    let number = decimal_string(e);
    let suffix = joined(kind, number.as_str()).concat(projection);
    block_name(i, suffix.as_str())
}

/// Why expert `e` of block `i` cannot be loaded, if it cannot.
pub open spec fn expert_failure(m: TensorMap, i: nat, kind: Seq<char>, e: nat) -> Option<
    ArchErrorView,
> {
    first_of(
        needed_values_failure(m, expert_tensor(i, kind, e, ".ffn_gate.weight"@)),
        first_of(
            needed_values_failure(m, expert_tensor(i, kind, e, ".ffn_up.weight"@)),
            needed_values_failure(m, expert_tensor(i, kind, e, ".ffn_down.weight"@)),
        ),
    )
}

/// Whether an expert is expert `e` of block `i`.
pub open spec fn is_expert(
    x: Expert,
    m: TensorMap,
    i: nat,
    kind: Seq<char>,
    e: nat,
    hidden: usize,
    inner: usize,
) -> bool {
    &&& x.gate@ == values_of(m, expert_tensor(i, kind, e, ".ffn_gate.weight"@))
    &&& x.up@ == values_of(m, expert_tensor(i, kind, e, ".ffn_up.weight"@))
    &&& x.down@ == values_of(m, expert_tensor(i, kind, e, ".ffn_down.weight"@))
    &&& x.hidden_size == hidden
    &&& x.intermediate_size == inner
}

fn load_expert(
    model: &GgufModel,
    i: usize,
    kind: &str,
    e: usize,
    hidden_size: usize,
    intermediate_size: usize,
) -> (r: ArchResult<Expert>)
    ensures
        follows(r, expert_failure(model.tensors@, i as nat, kind@, e as nat)),
        r matches Ok(x) ==> is_expert(
            x,
            model.tensors@,
            i as nat,
            kind@,
            e as nat,
            hidden_size,
            intermediate_size,
        ),
{
    let gate = load_needed_values(model, expert_name(i, kind, e, ".ffn_gate.weight").as_str())?;
    let up = load_needed_values(model, expert_name(i, kind, e, ".ffn_up.weight").as_str())?;
    let down = load_needed_values(model, expert_name(i, kind, e, ".ffn_down.weight").as_str())?;
    Ok(Expert { gate, up, down, hidden_size, intermediate_size })
}

/// The failures of the experts of a kind in block `i`.
pub open spec fn expert_failures(m: TensorMap, i: nat, kind: Seq<char>) -> spec_fn(nat) -> Option<
    ArchErrorView,
> {
    |e: nat| expert_failure(m, i, kind, e)
}

/// Whether experts are those of a kind in block `i`.
pub open spec fn are_experts(
    xs: Seq<Expert>,
    m: TensorMap,
    i: nat,
    kind: Seq<char>,
    hidden: usize,
    inner: usize,
) -> bool {
    forall|e: int|
        0 <= e < xs.len() ==> is_expert(#[trigger] xs[e], m, i, kind, e as nat, hidden, inner)
}

fn load_experts(
    model: &GgufModel,
    i: usize,
    kind: &str,
    n: usize,
    hidden: usize,
    inner: usize,
) -> (r: ArchResult<Vec<Expert>>)
    ensures
        follows(r, first_failure(expert_failures(model.tensors@, i as nat, kind@), n as nat)),
        r matches Ok(v) ==> v@.len() == n && are_experts(
            v@,
            model.tensors@,
            i as nat,
            kind@,
            hidden,
            inner,
        ),
{
    let ghost failures = expert_failures(model.tensors@, i as nat, kind@);
    let mut experts: Vec<Expert> = Vec::new();
    let mut e: usize = 0;
    while e < n
        invariant
            e <= n,
            failures == expert_failures(model.tensors@, i as nat, kind@),
            first_failure(failures, e as nat) is None,
            experts@.len() == e,
            are_experts(experts@, model.tensors@, i as nat, kind@, hidden, inner),
        decreases n - e,
    {
        match load_expert(model, i, kind, e, hidden, inner) {
            Ok(x) => {
                experts.push(x);
            },
            Err(err) => {
                proof {
                    lemma_first_failure(failures, e as nat, n as nat);
                }
                return Err(err);
            },
        }
        e = e + 1;
    }
    Ok(experts)
}

/// The tensor of the expert bias of block `i`.
pub open spec fn bias_name(i: nat) -> Seq<char> {
    block_tensor(i, ".exp_probs_b.weight"@)
}

/// Why the experts of block `i` cannot be loaded, if they cannot. The bias is
/// optional.
pub open spec fn moe_failure(m: TensorMap, ds: DeepSeekConfig, i: nat) -> Option<ArchErrorView> {
    first_of(
        needed_values_failure(m, block_tensor(i, ".ffn_gate_inp.weight"@)),
        first_of(
            first_failure(expert_failures(m, i, ".ffn_exp."@), ds.n_routed_experts as nat),
            first_of(
                first_failure(
                    expert_failures(m, i, ".ffn_shared_exp."@),
                    ds.n_shared_experts as nat,
                ),
                if m.contains_key(bias_name(i)) {
                    needed_values_failure(m, bias_name(i))
                } else {
                    None
                },
            ),
        ),
    )
}

/// The parameters of the experts of block `i`: a block with a bias for its
/// experts weights them by sigmoids, and any other by a softmax.
pub open spec fn moe_config_of(
    m: TensorMap,
    ds: DeepSeekConfig,
    i: nat,
    hidden: usize,
    inner: usize,
) -> MoeConfig {
    MoeConfig {
        hidden_size: hidden,
        expert_intermediate_size: inner,
        n_shared_experts: ds.n_shared_experts,
        n_routed_experts: ds.n_routed_experts,
        top_k: ds.top_k_routed,
        routed_scaling_factor: ds.routed_scaling_factor,
        scoring_mode: if m.contains_key(bias_name(i)) {
            ScoringMode::SigmoidWithBias
        } else {
            ScoringMode::Softmax
        },
        shared_expert_intermediate_size: ds.shared_expert_intermediate_size,
    }
}

/// Whether weights are those of the experts of block `i`.
pub open spec fn is_moe(
    w: MoeWeights,
    m: TensorMap,
    ds: DeepSeekConfig,
    i: nat,
    hidden: usize,
    inner: usize,
) -> bool {
    &&& w.router@ == values_of(m, block_tensor(i, ".ffn_gate_inp.weight"@))
    &&& w.routed_experts@.len() == ds.n_routed_experts
    &&& are_experts(w.routed_experts@, m, i, ".ffn_exp."@, hidden, inner)
    &&& w.shared_experts@.len() == ds.n_shared_experts
    &&& are_experts(
        w.shared_experts@,
        m,
        i,
        ".ffn_shared_exp."@,
        hidden,
        ds.shared_expert_intermediate_size,
    )
    &&& match w.expert_bias {
        Some(b) => m.contains_key(bias_name(i)) && b@ == values_of(m, bias_name(i)),
        None => !m.contains_key(bias_name(i)),
    }
}

/// Loads the experts of block `i`, and their parameters.
fn load_moe_ffn(
    model: &GgufModel,
    ds: &DeepSeekConfig,
    i: usize,
    hidden_size: usize,
    intermediate_size: usize,
) -> (r: ArchResult<(MoeWeights, MoeConfig)>)
    ensures
        follows(r, moe_failure(model.tensors@, *ds, i as nat)),
        r matches Ok(x) ==> {
            &&& is_moe(x.0, model.tensors@, *ds, i as nat, hidden_size, intermediate_size)
            &&& x.1 == moe_config_of(model.tensors@, *ds, i as nat, hidden_size, intermediate_size)
        },
{
    let router = load_needed_values(model, block_name(i, ".ffn_gate_inp.weight").as_str())?;
    let routed_experts = load_experts(
        model,
        i,
        ".ffn_exp.",
        ds.n_routed_experts,
        hidden_size,
        intermediate_size,
    )?;
    let shared_experts = load_experts(
        model,
        i,
        ".ffn_shared_exp.",
        ds.n_shared_experts,
        hidden_size,
        ds.shared_expert_intermediate_size,
    )?;
    let bias = block_name(i, ".exp_probs_b.weight");
    let has_bias: bool = model.tensors.contains(bias.as_str());
    let expert_bias: Option<Vec<u32>> = if has_bias {
        Some(load_needed_values(model, bias.as_str())?)
    } else {
        None
    };
    let scoring_mode = if has_bias {
        ScoringMode::SigmoidWithBias
    } else {
        ScoringMode::Softmax
    };
    let config = MoeConfig {
        hidden_size,
        expert_intermediate_size: intermediate_size,
        n_shared_experts: ds.n_shared_experts,
        n_routed_experts: ds.n_routed_experts,
        top_k: ds.top_k_routed,
        routed_scaling_factor: ds.routed_scaling_factor,
        scoring_mode,
        shared_expert_intermediate_size: ds.shared_expert_intermediate_size,
    };
    Ok((MoeWeights { router, routed_experts, shared_experts, expert_bias }, config))
}

/// Why the dense network of block `i` cannot be loaded, if it cannot.
pub open spec fn dense_failure(m: TensorMap, i: nat) -> Option<ArchErrorView> {
    first_of(
        needed_bytes_failure(m, block_tensor(i, ".ffn_gate.weight"@)),
        first_of(
            needed_bytes_failure(m, block_tensor(i, ".ffn_up.weight"@)),
            needed_bytes_failure(m, block_tensor(i, ".ffn_down.weight"@)),
        ),
    )
}

/// Whether weights are those of the dense network of block `i`.
pub open spec fn is_dense(d: DenseFfn, m: TensorMap, i: nat) -> bool {
    &&& is_linear(d.gate, m, block_tensor(i, ".ffn_gate.weight"@))
    &&& is_linear(d.up, m, block_tensor(i, ".ffn_up.weight"@))
    &&& is_linear(d.down, m, block_tensor(i, ".ffn_down.weight"@))
}

fn load_dense_ffn(model: &GgufModel, i: usize) -> (r: ArchResult<DenseFfn>)
    ensures
        follows(r, dense_failure(model.tensors@, i as nat)),
        r matches Ok(d) ==> is_dense(d, model.tensors@, i as nat),
{
    let gate = load_needed_linear(model, block_name(i, ".ffn_gate.weight").as_str())?;
    let up = load_needed_linear(model, block_name(i, ".ffn_up.weight").as_str())?;
    let down = load_needed_linear(model, block_name(i, ".ffn_down.weight").as_str())?;
    Ok(DenseFfn { gate, up, down })
}

/// The parameters of attention that a configuration gives.
pub open spec fn mla_config_of(c: ModelConfigView, ds: DeepSeekConfig) -> MlaConfig {
    MlaConfig {
        num_heads: c.num_attention_heads,
        q_lora_rank: ds.q_lora_rank,
        kv_lora_rank: ds.kv_lora_rank,
        qk_nope_head_dim: ds.qk_nope_head_dim,
        qk_rope_head_dim: ds.qk_rope_head_dim,
        v_head_dim: ds.v_head_dim,
        rope_theta: c.rope_freq_base,
        qk_head_dim: (ds.qk_nope_head_dim + ds.qk_rope_head_dim) as usize,
    }
}

/// Why block `i` cannot be loaded, if it cannot.
pub open spec fn layer_failure(m: TensorMap, ds: DeepSeekConfig, i: nat) -> Option<ArchErrorView> {
    first_of(
        needed_values_failure(m, block_tensor(i, ".attn_norm.weight"@)),
        first_of(
            needed_values_failure(m, block_tensor(i, ".ffn_norm.weight"@)),
            first_of(
                mla_failure(m, i),
                if i < ds.first_k_dense_replace {
                    dense_failure(m, i)
                } else {
                    moe_failure(m, ds, i)
                },
            ),
        ),
    )
}

/// The failures of the blocks.
pub open spec fn layer_failures(m: TensorMap, ds: DeepSeekConfig) -> spec_fn(nat) -> Option<
    ArchErrorView,
> {
    |i: nat| layer_failure(m, ds, i)
}

/// Whether a feed-forward network is that of block `i`: dense in the leading
/// blocks, and experts in the others.
pub open spec fn is_ffn(
    f: FfnKind,
    m: TensorMap,
    c: ModelConfigView,
    ds: DeepSeekConfig,
    i: nat,
) -> bool {
    match f {
        FfnKind::Dense(d) => i < ds.first_k_dense_replace && is_dense(*d, m, i),
        FfnKind::Moe { weights, config } => {
            &&& i >= ds.first_k_dense_replace
            &&& is_moe(*weights, m, ds, i, c.hidden_size, c.intermediate_size)
            &&& config == moe_config_of(m, ds, i, c.hidden_size, c.intermediate_size)
        },
    }
}

/// Whether a layer is that of block `i`, with an empty cache.
pub open spec fn is_layer(
    l: DeepSeekLayer,
    m: TensorMap,
    c: ModelConfigView,
    ds: DeepSeekConfig,
    i: nat,
) -> bool {
    &&& is_norm(l.attn_norm, m, block_tensor(i, ".attn_norm.weight"@), c.rms_norm_eps)
    &&& is_norm(l.ffn_norm, m, block_tensor(i, ".ffn_norm.weight"@), c.rms_norm_eps)
    &&& is_mla(l.mla_weights, m, l.mla_config, c.max_context_length as nat, i)
    &&& l.mla_config == mla_config_of(c, ds)
    &&& l.mla_cache.max_seq_len == c.max_context_length
    &&& l.mla_cache.is_empty()
    &&& is_ffn(l.ffn, m, c, ds, i)
}

/// Why the weights of a model cannot be loaded, if they cannot.
pub open spec fn weights_failure(m: TensorMap, layers: nat, ds: DeepSeekConfig) -> Option<
    ArchErrorView,
> {
    first_of(
        needed_values_failure(m, "token_embd.weight"@),
        first_of(
            first_failure(layer_failures(m, ds), layers),
            first_of(
                needed_values_failure(m, "output_norm.weight"@),
                needed_bytes_failure(m, "output.weight"@),
            ),
        ),
    )
}

/// Why a model cannot be loaded, if it cannot: the metadata names no
/// architecture, or a tensor is missing or a kernel failed on it.
pub open spec fn deepseek_failure(meta: MetadataMap, m: TensorMap) -> Option<ArchErrorView> {
    match meta_text(meta, "general.architecture"@) {
        None => Some(ArchErrorView::UnknownArchitecture { arch_id: "<missing>"@ }),
        Some(arch) => {
            let c = model_config_of(meta, arch);
            weights_failure(m, c.num_layers as nat, deepseek_config_of(meta, c.hidden_size))
        },
    }
}

/// Whether a model holds the tensors of a file, at the beginning of a sequence.
pub open spec fn is_deepseek(model: DeepSeekModel, meta: MetadataMap, m: TensorMap) -> bool {
    let c = model_config_of(meta, meta_text(meta, "general.architecture"@)->0);
    let ds = deepseek_config_of(meta, c.hidden_size);
    &&& model.config@ == c
    &&& model.ds_config == ds
    &&& model.token_embd@ == values_of(m, "token_embd.weight"@)
    &&& model.layers@.len() == c.num_layers
    &&& forall|i: int|
        0 <= i < model.layers@.len() ==> is_layer(#[trigger] model.layers@[i], m, c, ds, i as nat)
    &&& is_norm(model.output_norm, m, "output_norm.weight"@, c.rms_norm_eps)
    &&& is_linear(model.output, m, "output.weight"@)
    &&& model.current_pos == 0
}

/// Whether sizes that are computed from metadata fit a machine word. They
/// always do where a word has 64 bits.
pub open spec fn metadata_fits(meta: MetadataMap) -> bool {
    &&& ModelConfig::metadata_fits(meta)
    &&& meta_text(meta, "general.architecture"@) matches Some(arch) ==> {
        let c = model_config_of(meta, arch);
        let ds = deepseek_config_of(meta, c.hidden_size);
        &&& ds.qk_nope_head_dim + ds.qk_rope_head_dim <= usize::MAX
        &&& c.max_context_length * (ds.qk_rope_head_dim / 2) <= usize::MAX
    }
}

fn load_layer(
    model: &GgufModel,
    config: &ModelConfig,
    ds: &DeepSeekConfig,
    mla_config: &MlaConfig,
    i: usize,
) -> (r: ArchResult<DeepSeekLayer>)
    requires
        *mla_config == mla_config_of(config@, *ds),
        config.max_context_length * (ds.qk_rope_head_dim / 2) <= usize::MAX,
    ensures
        follows(r, layer_failure(model.tensors@, *ds, i as nat)),
        r matches Ok(l) ==> is_layer(l, model.tensors@, config@, *ds, i as nat),
{
    let eps: u32 = config.rms_norm_eps;
    let attn_norm = load_needed_norm(model, block_name(i, ".attn_norm.weight").as_str(), eps)?;
    let ffn_norm = load_needed_norm(model, block_name(i, ".ffn_norm.weight").as_str(), eps)?;
    let mla_weights = load_mla_weights(model, mla_config, i, config.max_context_length)?;
    let mla_cache = MlaLatentCache::new(config.max_context_length);
    let ffn = if i < ds.first_k_dense_replace {
        FfnKind::Dense(Box::new(load_dense_ffn(model, i)?))
    } else {
        let (weights, moe_config) = load_moe_ffn(
            model,
            ds,
            i,
            config.hidden_size,
            config.intermediate_size,
        )?;
        FfnKind::Moe { weights: Box::new(weights), config: moe_config }
    };
    Ok(DeepSeekLayer { attn_norm, mla_weights, mla_config: *mla_config, mla_cache, ffn_norm, ffn })
}

/// Loads a model: its configuration from the metadata, and every tensor by its
/// name.
pub fn load_deepseek_from_gguf(model: &GgufModel) -> (r: ArchResult<DeepSeekModel>)
    requires
        metadata_fits(model.metadata@),
    ensures
        follows(r, deepseek_failure(model.metadata@, model.tensors@)),
        r matches Ok(d) ==> is_deepseek(d, model.metadata@, model.tensors@),
{
    let config = ModelConfig::from_metadata(&model.metadata)?;
    let ds = DeepSeekConfig::from_metadata(&model.metadata, config.hidden_size);
    let mla_config = MlaConfig {
        num_heads: config.num_attention_heads,
        q_lora_rank: ds.q_lora_rank,
        kv_lora_rank: ds.kv_lora_rank,
        qk_nope_head_dim: ds.qk_nope_head_dim,
        qk_rope_head_dim: ds.qk_rope_head_dim,
        v_head_dim: ds.v_head_dim,
        rope_theta: config.rope_freq_base,
        qk_head_dim: ds.qk_nope_head_dim + ds.qk_rope_head_dim,
    };
    let token_embd = load_needed_values(model, "token_embd.weight")?;
    let ghost failures = layer_failures(model.tensors@, ds);
    let mut layers: Vec<DeepSeekLayer> = Vec::new();
    let mut i: usize = 0;
    while i < config.num_layers
        invariant
            i <= config.num_layers,
            mla_config == mla_config_of(config@, ds),
            config.max_context_length * (ds.qk_rope_head_dim / 2) <= usize::MAX,
            meta_text(model.metadata@, "general.architecture"@) matches Some(arch) && config@
                == model_config_of(model.metadata@, arch),
            ds == deepseek_config_of(model.metadata@, config.hidden_size),
            failures == layer_failures(model.tensors@, ds),
            needed_values_failure(model.tensors@, "token_embd.weight"@) is None,
            first_failure(failures, i as nat) is None,
            layers@.len() == i,
            forall|j: int|
                0 <= j < i ==> is_layer(
                    #[trigger] layers@[j],
                    model.tensors@,
                    config@,
                    ds,
                    j as nat,
                ),
        decreases config.num_layers - i,
    {
        match load_layer(model, &config, &ds, &mla_config, i) {
            Ok(l) => {
                layers.push(l);
            },
            Err(e) => {
                proof {
                    lemma_first_failure(failures, i as nat, config.num_layers as nat);
                }
                return Err(e);
            },
        }
        i = i + 1;
    }
    let output_norm = load_needed_norm(model, "output_norm.weight", config.rms_norm_eps)?;
    let output = load_needed_linear(model, "output.weight")?;
    Ok(DeepSeekModel::new(config, ds, token_embd, layers, output_norm, output))
}

/// A model of given weights.
pub fn build_deepseek_model(
    config: ModelConfig,
    ds_config: DeepSeekConfig,
    token_embd: Vec<u32>,
    layers: Vec<DeepSeekLayer>,
    output_norm: RmsNorm,
    output: QuantLinear,
) -> (m: DeepSeekModel)
    ensures
        m.config == config,
        m.ds_config == ds_config,
        m.token_embd == token_embd,
        m.layers == layers,
        m.output_norm == output_norm,
        m.output == output,
        m.current_pos == 0,
{
    DeepSeekModel::new(config, ds_config, token_embd, layers, output_norm, output)
}

/// In a loaded model, layers have a dense network up to the configured number,
/// and experts from there on.
pub proof fn law_dense_layers_lead(model: DeepSeekModel, meta: MetadataMap, m: TensorMap, i: int)
    requires
        is_deepseek(model, meta, m),
        0 <= i < model.layers@.len(),
    ensures
        model.layers@[i].ffn is Dense <==> i < model.ds_config.first_k_dense_replace,
{
    let c = model_config_of(meta, meta_text(meta, "general.architecture"@)->0);
    assert(is_layer(model.layers@[i], m, c, model.ds_config, i as nat));
}

/// In a loaded model, a layer of experts weights them by sigmoids exactly where
/// it has a bias for them, which is where the file has a tensor of that bias.
pub proof fn law_bias_decides_scoring(model: DeepSeekModel, meta: MetadataMap, m: TensorMap, i: int)
    requires
        is_deepseek(model, meta, m),
        0 <= i < model.layers@.len(),
    ensures
        model.layers@[i].ffn matches FfnKind::Moe { weights, config } ==> {
            &&& config.scoring_mode == ScoringMode::SigmoidWithBias <==> weights.expert_bias is Some
            &&& weights.expert_bias is Some <==> m.contains_key(bias_name(i as nat))
        },
{
    let c = model_config_of(meta, meta_text(meta, "general.architecture"@)->0);
    assert(is_layer(model.layers@[i], m, c, model.ds_config, i as nat));
}

/// A model that was reset is as it was when it was made, whatever it has run:
/// at the beginning of a sequence, with the same weights and nothing cached.
pub proof fn law_reset_is_fresh(
    made: DeepSeekModel,
    run: DeepSeekModel,
    reset: DeepSeekModel,
    i: int,
)
    requires
        made.current_pos == 0,
        made.layers@[i].mla_cache.is_empty(),
        run.same_frame(&made),
        run.layers@.len() == made.layers@.len(),
        0 <= i < made.layers@.len(),
        run.layers@[i].same_weights(&made.layers@[i]),
        reset.same_frame(&run),
        reset.current_pos == 0,
        reset.layers@.len() == run.layers@.len(),
        reset.layers@[i].same_weights(&run.layers@[i]),
        reset.layers@[i].mla_cache.is_empty(),
    ensures
        reset.same_frame(&made),
        reset.current_pos == made.current_pos,
        reset.layers@.len() == made.layers@.len(),
        reset.layers@[i].same_weights(&made.layers@[i]),
        reset.layers@[i].mla_cache.latents@ == made.layers@[i].mla_cache.latents@,
        reset.layers@[i].mla_cache.rope_keys@ == made.layers@[i].mla_cache.rope_keys@,
{
    assert(reset.layers@[i].mla_cache.latents@ =~= made.layers@[i].mla_cache.latents@);
    assert(reset.layers@[i].mla_cache.rope_keys@ =~= made.layers@[i].mla_cache.rope_keys@);
}

/// Two passes in a row take up positions without a gap: the second begins
/// where the first ended.
pub proof fn law_passes_are_contiguous(
    before: DeepSeekModel,
    first: Pass,
    after: DeepSeekModel,
    second: Pass,
    a: Seq<u32>,
    b: Seq<u32>,
)
    requires
        first.begins(
            Order::Together,
            before.layers@.len(),
            before.current_pos as nat,
            before.token_embd@,
            before.config.hidden_size as nat,
            a,
        ),
        after.current_pos == before.current_pos + first.shape.tokens,
        second.begins(
            Order::Together,
            after.layers@.len(),
            after.current_pos as nat,
            after.token_embd@,
            after.config.hidden_size as nat,
            b,
        ),
    ensures
        second.shape.start == first.shape.start + a.len(),
{
}

/// A sequence is run after a reset as it was run first: the model begins the same
/// pass, from the same states and positions, and ends in the same norm and output
/// projection.
pub proof fn law_reset_repeats_pass(
    made: DeepSeekModel,
    run: DeepSeekModel,
    reset: DeepSeekModel,
    first: Pass,
    again: Pass,
    tokens: Seq<u32>,
)
    requires
        made.current_pos == 0,
        run.same_frame(&made),
        run.layers@.len() == made.layers@.len(),
        reset.same_frame(&run),
        reset.current_pos == 0,
        reset.layers@.len() == run.layers@.len(),
        first.begins(
            Order::Together,
            made.layers@.len(),
            made.current_pos as nat,
            made.token_embd@,
            made.config.hidden_size as nat,
            tokens,
        ),
        again.begins(
            Order::Together,
            reset.layers@.len(),
            reset.current_pos as nat,
            reset.token_embd@,
            reset.config.hidden_size as nat,
            tokens,
        ),
    ensures
        again.shape == first.shape,
        again.states@ == first.states@,
        reset.output == made.output,
        reset.output_norm == made.output_norm,
{
}

/// Two models in the same state, of which one runs tokens for logits and the
/// other for an embedding, go through the same pass and are in the same state
/// again when both passes have ended, provided that the pass left the same in the
/// caches of both.
pub proof fn law_embed_advances_as_forward(
    a: DeepSeekModel,
    b: DeepSeekModel,
    forward: Pass,
    embed: Pass,
    a_after: DeepSeekModel,
    b_after: DeepSeekModel,
    tokens: Seq<u32>,
)
    requires
        a.same_frame(&b),
        a.layers == b.layers,
        a.current_pos == b.current_pos,
        forward.begins(
            Order::Together,
            a.layers@.len(),
            a.current_pos as nat,
            a.token_embd@,
            a.config.hidden_size as nat,
            tokens,
        ),
        embed.begins(
            Order::Together,
            b.layers@.len(),
            b.current_pos as nat,
            b.token_embd@,
            b.config.hidden_size as nat,
            tokens,
        ),
        a_after.same_frame(&a),
        b_after.same_frame(&b),
        a_after.layers == b_after.layers,
        a_after.current_pos == a.current_pos + forward.shape.tokens,
        b_after.current_pos == b.current_pos + embed.shape.tokens,
    ensures
        forward.shape == embed.shape,
        forward.states@ == embed.states@,
        a_after.same_frame(&b_after),
        a_after.current_pos == b_after.current_pos,
{
}

/// In a loaded model, the gating weights of every routed and every shared expert
/// are the decoded elements of that expert's `.ffn_gate.weight` tensor, its up
/// weights those of `.ffn_up.weight` and its down weights those of
/// `.ffn_down.weight`. There are as many experts of each kind as configured.
pub proof fn law_experts_hold_their_own_tensors(
    model: DeepSeekModel,
    meta: MetadataMap,
    m: TensorMap,
    i: int,
    e: int,
)
    requires
        is_deepseek(model, meta, m),
        0 <= i < model.layers@.len(),
    ensures
        model.layers@[i].ffn matches FfnKind::Moe { weights, config } ==> {
            &&& weights.routed_experts@.len() == model.ds_config.n_routed_experts
            &&& weights.shared_experts@.len() == model.ds_config.n_shared_experts
            &&& 0 <= e < weights.routed_experts@.len() ==> {
                &&& weights.routed_experts@[e].gate@
                    == m["blk."@ + decimal(i as nat) + ".ffn_exp."@ + decimal(e as nat)
                    + ".ffn_gate.weight"@].decode()->Ok_0
                &&& weights.routed_experts@[e].up@
                    == m["blk."@ + decimal(i as nat) + ".ffn_exp."@ + decimal(e as nat)
                    + ".ffn_up.weight"@].decode()->Ok_0
                &&& weights.routed_experts@[e].down@
                    == m["blk."@ + decimal(i as nat) + ".ffn_exp."@ + decimal(e as nat)
                    + ".ffn_down.weight"@].decode()->Ok_0
                &&& weights.routed_experts@[e].hidden_size == model.config.hidden_size
                &&& weights.routed_experts@[e].intermediate_size == model.config.intermediate_size
            }
            &&& 0 <= e < weights.shared_experts@.len() ==> {
                &&& weights.shared_experts@[e].gate@
                    == m["blk."@ + decimal(i as nat) + ".ffn_shared_exp."@ + decimal(e as nat)
                    + ".ffn_gate.weight"@].decode()->Ok_0
                &&& weights.shared_experts@[e].up@
                    == m["blk."@ + decimal(i as nat) + ".ffn_shared_exp."@ + decimal(e as nat)
                    + ".ffn_up.weight"@].decode()->Ok_0
                &&& weights.shared_experts@[e].down@
                    == m["blk."@ + decimal(i as nat) + ".ffn_shared_exp."@ + decimal(e as nat)
                    + ".ffn_down.weight"@].decode()->Ok_0
                &&& weights.shared_experts@[e].hidden_size == model.config.hidden_size
                &&& weights.shared_experts@[e].intermediate_size
                    == model.ds_config.shared_expert_intermediate_size
            }
        },
{
    let c = model_config_of(meta, meta_text(meta, "general.architecture"@)->0);
    assert(is_layer(model.layers@[i], m, c, model.ds_config, i as nat));
    if let FfnKind::Moe { weights, config } = model.layers@[i].ffn {
        lemma_expert_tensor_is_spelled_out(i as nat, ".ffn_exp."@, e as nat);
        lemma_expert_tensor_is_spelled_out(i as nat, ".ffn_shared_exp."@, e as nat);
        if 0 <= e < weights.routed_experts@.len() {
            assert(is_expert(
                weights.routed_experts@[e],
                m,
                i as nat,
                ".ffn_exp."@,
                e as nat,
                c.hidden_size,
                c.intermediate_size,
            ));
        }
        if 0 <= e < weights.shared_experts@.len() {
            assert(is_expert(
                weights.shared_experts@[e],
                m,
                i as nat,
                ".ffn_shared_exp."@,
                e as nat,
                c.hidden_size,
                model.ds_config.shared_expert_intermediate_size,
            ));
        }
    }
}

/// The name of an expert's tensor is the block, the kind, the number of the
/// expert and the projection, in a row.
proof fn lemma_expert_tensor_is_spelled_out(i: nat, kind: Seq<char>, e: nat)
    ensures
        forall|p: Seq<char>|
            #[trigger] expert_tensor(i, kind, e, p) == "blk."@ + decimal(i) + kind + decimal(e) + p,
{
    assert forall|p: Seq<char>|
        #[trigger] expert_tensor(i, kind, e, p) == "blk."@ + decimal(i) + kind + decimal(e) + p by {
        assert("blk."@ + decimal(i) + (kind + decimal(e) + p) =~= "blk."@ + decimal(i) + kind
            + decimal(e) + p);
    }
}

/// In a loaded model every weight is that of the tensor that is named after it:
/// `blk.{i}` and the name of the part for layer `i`, and the bare name for the
/// parts that the layers share. Parts of attention with two names are taken under
/// the first where the file has it.
#[verifier::rlimit(40)]
pub proof fn law_tensors_are_where_their_names_say(
    model: DeepSeekModel,
    meta: MetadataMap,
    m: TensorMap,
    i: int,
)
    requires
        is_deepseek(model, meta, m),
        0 <= i < model.layers@.len(),
    ensures
        model.layers@[i].attn_norm.weight@
            == m["blk."@ + decimal(i as nat) + ".attn_norm.weight"@].decode()->Ok_0,
        model.layers@[i].attn_norm.eps == model.config.rms_norm_eps,
        model.layers@[i].ffn_norm.weight@
            == m["blk."@ + decimal(i as nat) + ".ffn_norm.weight"@].decode()->Ok_0,
        model.layers@[i].ffn_norm.eps == model.config.rms_norm_eps,
        m.contains_key("blk."@ + decimal(i as nat) + ".attn_q_a_proj.weight"@)
            ==> m["blk."@ + decimal(i as nat) + ".attn_q_a_proj.weight"@].bytes()
            == Some(model.layers@[i].mla_weights.w_q_a.weight.data@),
        !m.contains_key("blk."@ + decimal(i as nat) + ".attn_q_a_proj.weight"@)
            ==> m["blk."@ + decimal(i as nat) + ".attn_q_a.weight"@].bytes()
            == Some(model.layers@[i].mla_weights.w_q_a.weight.data@),
        m.contains_key("blk."@ + decimal(i as nat) + ".attn_q_a_norm.weight"@)
            ==> model.layers@[i].mla_weights.q_a_norm.weight@
            == m["blk."@ + decimal(i as nat) + ".attn_q_a_norm.weight"@].decode()->Ok_0,
        !m.contains_key("blk."@ + decimal(i as nat) + ".attn_q_a_norm.weight"@)
            ==> model.layers@[i].mla_weights.q_a_norm.weight@
            == m["blk."@ + decimal(i as nat) + ".attn_q_norm.weight"@].decode()->Ok_0,
        m.contains_key("blk."@ + decimal(i as nat) + ".attn_q_b_proj.weight"@)
            ==> m["blk."@ + decimal(i as nat) + ".attn_q_b_proj.weight"@].bytes()
            == Some(model.layers@[i].mla_weights.w_q_b.weight.data@),
        !m.contains_key("blk."@ + decimal(i as nat) + ".attn_q_b_proj.weight"@)
            ==> m["blk."@ + decimal(i as nat) + ".attn_q_b.weight"@].bytes()
            == Some(model.layers@[i].mla_weights.w_q_b.weight.data@),
        m.contains_key("blk."@ + decimal(i as nat) + ".attn_kv_a_proj.weight"@)
            ==> m["blk."@ + decimal(i as nat) + ".attn_kv_a_proj.weight"@].bytes()
            == Some(model.layers@[i].mla_weights.w_kv_a.weight.data@),
        !m.contains_key("blk."@ + decimal(i as nat) + ".attn_kv_a_proj.weight"@)
            ==> m["blk."@ + decimal(i as nat) + ".attn_kv_a.weight"@].bytes()
            == Some(model.layers@[i].mla_weights.w_kv_a.weight.data@),
        m.contains_key("blk."@ + decimal(i as nat) + ".attn_kv_a_norm.weight"@)
            ==> model.layers@[i].mla_weights.kv_a_norm.weight@
            == m["blk."@ + decimal(i as nat) + ".attn_kv_a_norm.weight"@].decode()->Ok_0,
        !m.contains_key("blk."@ + decimal(i as nat) + ".attn_kv_a_norm.weight"@)
            ==> model.layers@[i].mla_weights.kv_a_norm.weight@
            == m["blk."@ + decimal(i as nat) + ".attn_kv_norm.weight"@].decode()->Ok_0,
        m.contains_key("blk."@ + decimal(i as nat) + ".attn_kv_b_proj.weight"@)
            ==> m["blk."@ + decimal(i as nat) + ".attn_kv_b_proj.weight"@].bytes()
            == Some(model.layers@[i].mla_weights.w_kv_b.weight.data@),
        !m.contains_key("blk."@ + decimal(i as nat) + ".attn_kv_b_proj.weight"@)
            ==> m["blk."@ + decimal(i as nat) + ".attn_kv_b.weight"@].bytes()
            == Some(model.layers@[i].mla_weights.w_kv_b.weight.data@),
        m["blk."@ + decimal(i as nat) + ".attn_output.weight"@].bytes()
            == Some(model.layers@[i].mla_weights.w_o.weight.data@),
        model.layers@[i].mla_weights.q_a_norm.eps == 0x3727_C5AC,
        model.layers@[i].mla_weights.kv_a_norm.eps == 0x3727_C5AC,
        model.layers@[i].mla_weights.rope.half() == model.ds_config.qk_rope_head_dim / 2,
        model.layers@[i].mla_weights.rope.positions() == model.config.max_context_length,
        model.layers@[i].mla_weights.rope.rule().base == model.config.rope_freq_base,
        model.layers@[i].ffn matches FfnKind::Dense(d) ==> {
            &&& m["blk."@ + decimal(i as nat) + ".ffn_gate.weight"@].bytes()
                == Some(d.gate.weight.data@)
            &&& m["blk."@ + decimal(i as nat) + ".ffn_up.weight"@].bytes()
                == Some(d.up.weight.data@)
            &&& m["blk."@ + decimal(i as nat) + ".ffn_down.weight"@].bytes()
                == Some(d.down.weight.data@)
        },
        model.layers@[i].ffn matches FfnKind::Moe { weights, config } ==> {
            &&& weights.router@
                == m["blk."@ + decimal(i as nat) + ".ffn_gate_inp.weight"@].decode()->Ok_0
            &&& weights.expert_bias is Some
                <==> m.contains_key("blk."@ + decimal(i as nat) + ".exp_probs_b.weight"@)
            &&& weights.expert_bias matches Some(b)
                ==> b@ == m["blk."@ + decimal(i as nat) + ".exp_probs_b.weight"@].decode()->Ok_0
            &&& m.contains_key("blk."@ + decimal(i as nat) + ".exp_probs_b.weight"@)
                ==> config.scoring_mode == ScoringMode::SigmoidWithBias
            &&& !m.contains_key("blk."@ + decimal(i as nat) + ".exp_probs_b.weight"@)
                ==> config.scoring_mode == ScoringMode::Softmax
            &&& config.hidden_size == model.config.hidden_size
            &&& config.expert_intermediate_size == model.config.intermediate_size
            &&& config.n_shared_experts == model.ds_config.n_shared_experts
            &&& config.n_routed_experts == model.ds_config.n_routed_experts
            &&& config.top_k == model.ds_config.top_k_routed
            &&& config.routed_scaling_factor == model.ds_config.routed_scaling_factor
            &&& config.shared_expert_intermediate_size
                == model.ds_config.shared_expert_intermediate_size
        },
        model.layers@[i].mla_config.num_heads == model.config.num_attention_heads,
        model.layers@[i].mla_config.q_lora_rank == model.ds_config.q_lora_rank,
        model.layers@[i].mla_config.kv_lora_rank == model.ds_config.kv_lora_rank,
        model.layers@[i].mla_config.qk_nope_head_dim == model.ds_config.qk_nope_head_dim,
        model.layers@[i].mla_config.qk_rope_head_dim == model.ds_config.qk_rope_head_dim,
        model.layers@[i].mla_config.v_head_dim == model.ds_config.v_head_dim,
        model.layers@[i].mla_config.rope_theta == model.config.rope_freq_base,
        model.ds_config.qk_nope_head_dim + model.ds_config.qk_rope_head_dim <= usize::MAX
            ==> model.layers@[i].mla_config.qk_head_dim
            == model.ds_config.qk_nope_head_dim + model.ds_config.qk_rope_head_dim,
        model.layers@.len() == model.config.num_layers,
        model.token_embd@ == m["token_embd.weight"@].decode()->Ok_0,
        model.output_norm.weight@ == m["output_norm.weight"@].decode()->Ok_0,
        model.output_norm.eps == model.config.rms_norm_eps,
        m["output.weight"@].bytes() == Some(model.output.weight.data@),
        model.current_pos == 0,
        model.layers@[i].mla_cache.max_seq_len == model.config.max_context_length,
{
    let c = model_config_of(meta, meta_text(meta, "general.architecture"@)->0);
    assert(is_layer(model.layers@[i], m, c, model.ds_config, i as nat));
}

/// Attention can be loaded exactly where each of its tensors can be had, under the
/// first of its names where the file has that and under the second elsewhere.
pub proof fn law_attention_needs_its_tensors(m: TensorMap, i: nat)
    ensures
        mla_failure(m, i) is None <==> {
            &&& m.contains_key("blk."@ + decimal(i) + ".attn_q_a_proj.weight"@)
                ==> needed_bytes_failure(m, "blk."@ + decimal(i) + ".attn_q_a_proj.weight"@) is None
            &&& !m.contains_key("blk."@ + decimal(i) + ".attn_q_a_proj.weight"@)
                ==> needed_bytes_failure(m, "blk."@ + decimal(i) + ".attn_q_a.weight"@) is None
            &&& m.contains_key("blk."@ + decimal(i) + ".attn_q_a_norm.weight"@)
                ==> needed_values_failure(m, "blk."@ + decimal(i)
                + ".attn_q_a_norm.weight"@) is None
            &&& !m.contains_key("blk."@ + decimal(i) + ".attn_q_a_norm.weight"@)
                ==> needed_values_failure(m, "blk."@ + decimal(i) + ".attn_q_norm.weight"@) is None
            &&& m.contains_key("blk."@ + decimal(i) + ".attn_q_b_proj.weight"@)
                ==> needed_bytes_failure(m, "blk."@ + decimal(i) + ".attn_q_b_proj.weight"@) is None
            &&& !m.contains_key("blk."@ + decimal(i) + ".attn_q_b_proj.weight"@)
                ==> needed_bytes_failure(m, "blk."@ + decimal(i) + ".attn_q_b.weight"@) is None
            &&& m.contains_key("blk."@ + decimal(i) + ".attn_kv_a_proj.weight"@)
                ==> needed_bytes_failure(m, "blk."@ + decimal(i)
                + ".attn_kv_a_proj.weight"@) is None
            &&& !m.contains_key("blk."@ + decimal(i) + ".attn_kv_a_proj.weight"@)
                ==> needed_bytes_failure(m, "blk."@ + decimal(i) + ".attn_kv_a.weight"@) is None
            &&& m.contains_key("blk."@ + decimal(i) + ".attn_kv_a_norm.weight"@)
                ==> needed_values_failure(m, "blk."@ + decimal(i)
                + ".attn_kv_a_norm.weight"@) is None
            &&& !m.contains_key("blk."@ + decimal(i) + ".attn_kv_a_norm.weight"@)
                ==> needed_values_failure(m, "blk."@ + decimal(i) + ".attn_kv_norm.weight"@) is None
            &&& m.contains_key("blk."@ + decimal(i) + ".attn_kv_b_proj.weight"@)
                ==> needed_bytes_failure(m, "blk."@ + decimal(i)
                + ".attn_kv_b_proj.weight"@) is None
            &&& !m.contains_key("blk."@ + decimal(i) + ".attn_kv_b_proj.weight"@)
                ==> needed_bytes_failure(m, "blk."@ + decimal(i) + ".attn_kv_b.weight"@) is None
            &&& needed_bytes_failure(m, "blk."@ + decimal(i) + ".attn_output.weight"@) is None
        },
{
}

/// An expert can be loaded exactly where its three projections can be had; the
/// first that cannot is reported.
pub proof fn law_experts_need_their_tensors(m: TensorMap, i: nat, kind: Seq<char>, e: nat)
    ensures
        ({
            let expert = "blk."@ + decimal(i) + kind + decimal(e);
            let gate = expert + ".ffn_gate.weight"@;
            let up = expert + ".ffn_up.weight"@;
            let down = expert + ".ffn_down.weight"@;
            &&& expert_failure(m, i, kind, e) is None <==> needed_values_failure(m, gate) is None
                && needed_values_failure(m, up) is None && needed_values_failure(m, down) is None
            &&& needed_values_failure(m, gate) is Some ==> expert_failure(m, i, kind, e)
                == needed_values_failure(m, gate)
            &&& needed_values_failure(m, gate) is None && needed_values_failure(m, up) is Some
                ==> expert_failure(m, i, kind, e) == needed_values_failure(m, up)
        }),
{
    lemma_expert_tensor_is_spelled_out(i, kind, e);
}

/// A block can be loaded exactly where its norms, its attention and its network
/// can: a dense network of three projections in the leading blocks, and in the
/// others the router, every routed and every shared expert, and the bias where the
/// file has one.
pub proof fn law_blocks_need_their_tensors(m: TensorMap, ds: DeepSeekConfig, i: nat)
    ensures
        layer_failure(m, ds, i) is None <==> {
            &&& needed_values_failure(m, "blk."@ + decimal(i) + ".attn_norm.weight"@) is None
            &&& needed_values_failure(m, "blk."@ + decimal(i) + ".ffn_norm.weight"@) is None
            &&& mla_failure(m, i) is None
            &&& i < ds.first_k_dense_replace ==> {
                &&& needed_bytes_failure(m, "blk."@ + decimal(i) + ".ffn_gate.weight"@) is None
                &&& needed_bytes_failure(m, "blk."@ + decimal(i) + ".ffn_up.weight"@) is None
                &&& needed_bytes_failure(m, "blk."@ + decimal(i) + ".ffn_down.weight"@) is None
            }
            &&& i >= ds.first_k_dense_replace ==> {
                &&& needed_values_failure(m, "blk."@ + decimal(i) + ".ffn_gate_inp.weight"@) is None
                &&& forall|e: nat|
                    #![trigger decimal(e)]
                    e < ds.n_routed_experts ==> expert_failure(m, i, ".ffn_exp."@, e) is None
                &&& forall|e: nat|
                    #![trigger decimal(e)]
                    e < ds.n_shared_experts ==> expert_failure(m, i, ".ffn_shared_exp."@, e) is None
                &&& m.contains_key("blk."@ + decimal(i) + ".exp_probs_b.weight"@)
                    ==> needed_values_failure(m, "blk."@ + decimal(i)
                    + ".exp_probs_b.weight"@) is None
            }
        },
{
    lemma_experts_fail_one_by_one(m, i, ".ffn_exp."@, ds.n_routed_experts as nat);
    lemma_experts_fail_one_by_one(m, i, ".ffn_shared_exp."@, ds.n_shared_experts as nat);
}

proof fn lemma_experts_fail_one_by_one(m: TensorMap, i: nat, kind: Seq<char>, n: nat)
    ensures
        first_failure(expert_failures(m, i, kind), n) is None <==> forall|e: nat|
            #![trigger decimal(e)]
            e < n ==> expert_failure(m, i, kind, e) is None,
{
    let f = expert_failures(m, i, kind);
    law_first_failing_part_is_reported(f, n);
    assert forall|e: nat|
        #![trigger decimal(e)]
        e < n && first_failure(f, n) is None implies expert_failure(m, i, kind, e) is None by {
        assert(f(e) is None);
    }
    if forall|e: nat|
        #![trigger decimal(e)]
        e < n ==> expert_failure(m, i, kind, e) is None {
        assert forall|e: nat| e < n implies (#[trigger] f(e)) is None by {
            let d = decimal(e);
        }
    }
}

/// A file loads exactly where it names its architecture and every tensor that the
/// model needs can be had.
pub proof fn law_model_loads_where_its_tensors_are_there(meta: MetadataMap, m: TensorMap)
    ensures
        meta_text(meta, "general.architecture"@) is None ==> deepseek_failure(meta, m) == Some(
            ArchErrorView::UnknownArchitecture { arch_id: "<missing>"@ },
        ),
        meta_text(meta, "general.architecture"@) matches Some(arch) ==> (deepseek_failure(meta, m)
            is None <==> {
            let c = model_config_of(meta, arch);
            let ds = deepseek_config_of(meta, c.hidden_size);
            &&& needed_values_failure(m, "token_embd.weight"@) is None
            &&& forall|i: nat|
                #![trigger decimal(i)]
                i < c.num_layers ==> layer_failure(m, ds, i) is None
            &&& needed_values_failure(m, "output_norm.weight"@) is None
            &&& needed_bytes_failure(m, "output.weight"@) is None
        }),
{
    if let Some(arch) = meta_text(meta, "general.architecture"@) {
        let c = model_config_of(meta, arch);
        let ds = deepseek_config_of(meta, c.hidden_size);
        let f = layer_failures(m, ds);
        let n = c.num_layers as nat;
        law_first_failing_part_is_reported(f, n);
        assert forall|i: nat|
            #![trigger decimal(i)]
            i < n && first_failure(f, n) is None implies layer_failure(m, ds, i) is None by {
            assert(f(i) is None);
        }
        if forall|i: nat| #![trigger decimal(i)] i < n ==> layer_failure(m, ds, i) is None {
            assert forall|i: nat| i < n implies (#[trigger] f(i)) is None by {
                let d = decimal(i);
            }
        }
    }
}

/// A model that has run differs from what it was in nothing but its position and
/// the caches of its layers, and a layer in nothing but what its cache holds.
pub proof fn law_only_position_and_caches_change(
    a: DeepSeekModel,
    b: DeepSeekModel,
    x: DeepSeekLayer,
    y: DeepSeekLayer,
)
    requires
        b.same_frame(&a),
        y.same_weights(&x),
    ensures
        b == (DeepSeekModel { layers: b.layers, current_pos: b.current_pos, ..a }),
        y == (DeepSeekLayer { mla_cache: y.mla_cache, ..x }),
        y.mla_cache.max_seq_len == x.mla_cache.max_seq_len,
{
}

} // verus!
