//! DBRX: a decoder with sixteen routed experts in each layer.

use crate::bits::{F32_1E_MINUS_5, F32_TEN_THOUSAND};
use crate::common::embedding::{rows_reached, tokens_failure};
use crate::common::experts::{
    down_stack_name, gate_stack_name, is_stack_of, load_expert_stack, router_name, stack_failure,
    up_stack_name, ExpertStack,
};
use crate::common::heads::{
    head_reads_as_planned, plan_single_token, visible_tokens, HeadLayout, HeadReads,
};
use crate::common::linear::QuantLinear;
use crate::common::load::{
    bytes_failure, is_linear, is_norm, lemma_same_tensor, load_dequant_tensor, load_quant_linear,
    load_rms_norm, same_tensor, values_failure, values_of,
};
use crate::common::norm::RmsNorm;
use crate::common::pass::{begin_pass, Order, Pass};
use crate::common::rope::{standard, RopeTable};
use crate::common::sparse::{
    is_unit_norm, is_zero_linear, is_zero_moe, routed_config, routed_only, unit_norm,
    zero_layer_fits, zero_linear, zero_moe, MoeConfig, MoeWeights,
};
use crate::config::{div_or, model_config_of, quotient_or, vocab_or, vocab_size_or, ModelConfig};
use crate::error::{
    first_failure, first_of, follows, law_first_failing_part_is_reported, lemma_first_failure,
    missing_tensor, ArchErrorView,
    ArchResult,
};
use crate::gguf::{GgufModel, TensorMap, TensorStore};
use crate::metadata::{
    bits_or, meta_f32, meta_text, meta_u32, size_or, MetadataMap, MetadataStore,
};
use crate::text::{block_name, block_tensor, decimal};
use crate::traits::{
    add_pattern, no_patterns, pattern_views, tensor, ModelArchitecture, PatternView,
    TensorNamePattern,
};
use vstd::prelude::*;

verus! {

/// The family of models with the identifier `dbrx`.
#[derive(Debug, Clone, Copy)]
pub struct DbrxArchitecture;

impl DbrxArchitecture {
    /// The family.
    pub fn new() -> (a: Self)
        ensures
            a == DbrxArchitecture,
    {
        DbrxArchitecture
    }

    /// Answers a request to build a model from its tensors' names: the tensors'
    /// data can only be had from a file, so every request is refused.
    pub fn build(&self, _config: &ModelConfig, _tensors: &TensorStore) -> (r: ArchResult<()>)
        ensures
            r matches Err(e) && e@ == (ArchErrorView::MissingTensor {
                name: "DbrxArchitecture::build() is not the loader entry point; call load_dbrx_from_gguf() instead"@,
            }),
    {
        Err(
            missing_tensor(
                "DbrxArchitecture::build() is not the loader entry point; call load_dbrx_from_gguf() instead",
            ),
        )
    }
}

impl Default for DbrxArchitecture {
    fn default() -> (a: Self)
        ensures
            a == DbrxArchitecture,
    {
        DbrxArchitecture
    }
}

/// The tensors of the family.
pub open spec fn dbrx_patterns() -> Seq<PatternView> {
    seq![
        tensor("token_embd.weight"@, "Token embedding table"@, true),
        tensor("output_norm.weight"@, "Final RMSNorm scale"@, true),
        tensor("output.weight"@, "LM head projection"@, true),
        tensor("blk.*.attn_norm.weight"@, "Per-layer pre-attention RMSNorm"@, true),
        tensor("blk.*.attn_q.weight"@, "Query projection"@, true),
        tensor("blk.*.attn_k.weight"@, "Key projection"@, true),
        tensor("blk.*.attn_v.weight"@, "Value projection"@, true),
        tensor("blk.*.attn_output.weight"@, "Attention output projection"@, true),
        tensor("blk.*.ffn_norm.weight"@, "Per-layer pre-FFN RMSNorm"@, true),
        tensor("blk.*.ffn_gate_inp.weight"@, "MoE router projection"@, true),
        tensor("blk.*.ffn_gate_exps.weight"@, "Stacked expert gate projections"@, true),
        tensor("blk.*.ffn_up_exps.weight"@, "Stacked expert up projections"@, true),
        tensor("blk.*.ffn_down_exps.weight"@, "Stacked expert down projections"@, true),
    ]
}

/// Lists the tensors of the family.
fn dbrx_tensors() -> (v: Vec<TensorNamePattern>)
    ensures
        pattern_views(v@) == dbrx_patterns(),
{
    let mut v = no_patterns();
    add_pattern(&mut v, "token_embd.weight", "Token embedding table", true);
    add_pattern(&mut v, "output_norm.weight", "Final RMSNorm scale", true);
    add_pattern(&mut v, "output.weight", "LM head projection", true);
    add_pattern(&mut v, "blk.*.attn_norm.weight", "Per-layer pre-attention RMSNorm", true);
    add_pattern(&mut v, "blk.*.attn_q.weight", "Query projection", true);
    add_pattern(&mut v, "blk.*.attn_k.weight", "Key projection", true);
    add_pattern(&mut v, "blk.*.attn_v.weight", "Value projection", true);
    add_pattern(&mut v, "blk.*.attn_output.weight", "Attention output projection", true);
    add_pattern(&mut v, "blk.*.ffn_norm.weight", "Per-layer pre-FFN RMSNorm", true);
    add_pattern(&mut v, "blk.*.ffn_gate_inp.weight", "MoE router projection", true);
    add_pattern(&mut v, "blk.*.ffn_gate_exps.weight", "Stacked expert gate projections", true);
    add_pattern(&mut v, "blk.*.ffn_up_exps.weight", "Stacked expert up projections", true);
    add_pattern(&mut v, "blk.*.ffn_down_exps.weight", "Stacked expert down projections", true);
    v
}

impl ModelArchitecture for DbrxArchitecture {
    open spec fn id(&self) -> Seq<char> {
        "dbrx"@
    }

    open spec fn tensors(&self) -> Seq<PatternView> {
        dbrx_patterns()
    }

    fn arch_id(&self) -> (r: &'static str) {
        "dbrx"
    }

    fn tensor_names(&self) -> (v: Vec<TensorNamePattern>) {
        dbrx_tensors()
    }
}

/// The hyperparameters of the family. Numbers of type `f32` are patterns.
#[derive(Debug, Clone, Copy, PartialEq, Eq)]
pub struct DbrxConfig {
    /// Size of a hidden state.
    pub hidden_size: usize,
    /// Number of layers.
    pub num_layers: usize,
    /// Number of query heads.
    pub num_heads: usize,
    /// Number of key and value heads.
    pub num_kv_heads: usize,
    /// Size of one head.
    pub head_dim: usize,
    /// Number of tokens in the vocabulary.
    pub vocab_size: usize,
    /// Greatest number of tokens in a context.
    pub max_seq_len: usize,
    /// Number of experts.
    pub expert_count: usize,
    /// Number of experts that one token passes.
    pub expert_used_count: usize,
    /// Inner size of an expert.
    pub ffn_hidden_size: usize,
    /// Base frequency of the rotary embedding.
    pub rope_theta: u32,
    /// Epsilon of the norms.
    pub rms_norm_eps: u32,
}

/// The configuration that metadata describes.
pub open spec fn dbrx_config_of(m: MetadataMap) -> DbrxConfig {
    let hidden = size_or(m, "dbrx.embedding_length"@, 6144);
    let heads = size_or(m, "dbrx.attention.head_count"@, 48);
    let experts = size_or(m, "dbrx.expert_count"@, 16);
    DbrxConfig {
        hidden_size: hidden,
        num_layers: size_or(m, "dbrx.block_count"@, 40),
        num_heads: heads,
        num_kv_heads: size_or(m, "dbrx.attention.head_count_kv"@, heads),
        head_dim: quotient_or(hidden, heads, 128),
        vocab_size: vocab_or(m, "dbrx.vocab_size"@, 32000),
        max_seq_len: size_or(m, "dbrx.context_length"@, 32768),
        expert_count: experts,
        expert_used_count: size_or(m, "dbrx.expert_used_count"@, 4),
        ffn_hidden_size: size_or(
            m,
            "dbrx.feed_forward_length"@,
            (hidden * 4 / experts as int) as usize,
        ),
        rope_theta: bits_or(m, "dbrx.rope.freq_base"@, F32_TEN_THOUSAND),
        rms_norm_eps: bits_or(m, "dbrx.attention.layer_norm_rms_epsilon"@, F32_1E_MINUS_5),
    }
}

impl DbrxConfig {
    /// Whether there is an expert, and four times the hidden size fits a
    /// machine word: the inner size of an expert defaults to its share of that.
    pub open spec fn metadata_fits(m: MetadataMap) -> bool {
        &&& size_or(m, "dbrx.expert_count"@, 16) > 0
        &&& size_or(m, "dbrx.embedding_length"@, 6144) * 4 <= usize::MAX
    }

    /// Reads the configuration, with a default for every key that is missing.
    pub fn from_metadata(metadata: &MetadataStore) -> (c: Self)
        requires
            Self::metadata_fits(metadata@),
        ensures
            c == dbrx_config_of(metadata@),
    {
        let hidden_size: usize = metadata.usize_or("dbrx.embedding_length", 6144);
        let num_heads: usize = metadata.usize_or("dbrx.attention.head_count", 48);
        let expert_count: usize = metadata.usize_or("dbrx.expert_count", 16);
        let share: usize = hidden_size * 4 / expert_count;
        DbrxConfig {
            hidden_size,
            num_layers: metadata.usize_or("dbrx.block_count", 40),
            num_heads,
            num_kv_heads: metadata.usize_or("dbrx.attention.head_count_kv", num_heads),
            head_dim: div_or(hidden_size, num_heads, 128),
            vocab_size: vocab_size_or(metadata, "dbrx.vocab_size", 32000),
            max_seq_len: metadata.usize_or("dbrx.context_length", 32768),
            expert_count,
            expert_used_count: metadata.usize_or("dbrx.expert_used_count", 4),
            ffn_hidden_size: metadata.usize_or("dbrx.feed_forward_length", share),
            rope_theta: metadata.f32_or("dbrx.rope.freq_base", F32_TEN_THOUSAND),
            rms_norm_eps: metadata.f32_or(
                "dbrx.attention.layer_norm_rms_epsilon",
                F32_1E_MINUS_5,
            ),
        }
    }
}

/// The weights of one layer.
#[derive(Debug)]
pub struct DbrxLayer {
    /// Norm before attention.
    pub attn_norm: RmsNorm,
    /// Query projection.
    pub attn_q: QuantLinear,
    /// Key projection.
    pub attn_k: QuantLinear,
    /// Value projection.
    pub attn_v: QuantLinear,
    /// Output projection of attention.
    pub attn_output: QuantLinear,
    /// Norm before the experts.
    pub ffn_norm: RmsNorm,
    /// The experts.
    pub moe_weights: MoeWeights,
    /// The parameters of the experts.
    pub moe_config: MoeConfig,
}

/// A loaded model, and the position of the next token.
#[derive(Debug)]
pub struct DbrxModel {
    /// The configuration that all families share.
    pub config: ModelConfig,
    /// The family's own configuration.
    pub dbrx_config: DbrxConfig,
    /// The embedding table, one row for each token.
    pub token_embd: Vec<u32>,
    /// The layers.
    pub layers: Vec<DbrxLayer>,
    /// Norm before the output projection.
    pub output_norm: RmsNorm,
    /// Output projection.
    pub output: QuantLinear,
    /// The position of the next token.
    pub current_pos: usize,
}

impl DbrxModel {
    /// The position of the next token.
    pub open spec fn position(&self) -> nat {
        self.current_pos as nat
    }

    /// Whether only the position may differ from another model.
    pub open spec fn same_weights(&self, other: &DbrxModel) -> bool {
        &&& self.config == other.config
        &&& self.dbrx_config == other.dbrx_config
        &&& self.token_embd == other.token_embd
        &&& self.layers == other.layers
        &&& self.output_norm == other.output_norm
        &&& self.output == other.output
    }

    /// A model of given weights, at the beginning of a sequence.
    pub fn new(
        config: ModelConfig,
        dbrx_config: DbrxConfig,
        token_embd: Vec<u32>,
        layers: Vec<DbrxLayer>,
        output_norm: RmsNorm,
        output: QuantLinear,
    ) -> (m: Self)
        ensures
            m.config == config,
            m.dbrx_config == dbrx_config,
            m.token_embd == token_embd,
            m.layers == layers,
            m.output_norm == output_norm,
            m.output == output,
            m.position() == 0,
    {
        DbrxModel { config, dbrx_config, token_embd, layers, output_norm, output, current_pos: 0 }
    }

    /// Goes back to the beginning of a sequence.
    pub fn reset_position(&mut self)
        ensures
            final(self).same_weights(old(self)),
            final(self).position() == 0,
    {
        self.current_pos = 0;
    }

    /// The heads of a layer.
    pub open spec fn layout(&self) -> HeadLayout {
        HeadLayout {
            num_heads: self.config.num_attention_heads,
            num_kv_heads: self.config.num_kv_heads,
            head_dim: self.config.head_dim,
        }
    }

    /// Plans what the heads read when one token attends, with `cached` tokens
    /// in the cache before it and `keys_len` and `values_len` elements in the
    /// caches of the layer.
    pub fn attention_single_token(
        &self,
        cached: usize,
        keys_len: usize,
        values_len: usize,
    ) -> (plan: Vec<HeadReads>)
        requires
            self.layout().num_heads == 0 || self.layout().grouped(),
            self.layout().num_heads * self.layout().head_dim <= usize::MAX,
        ensures
            plan@.len() == self.config.num_attention_heads,
            forall|h: int|
                0 <= h < plan@.len() ==> head_reads_as_planned(
                    #[trigger] plan@[h],
                    self.layout(),
                    h,
                    visible_tokens(cached as nat, self.config.max_context_length as nat),
                    keys_len as int,
                    values_len as int,
                ),
            forall|h: int|
                0 <= h < plan@.len() ==> (#[trigger] plan@[h]).keys@.len() == if cached
                    < self.config.max_context_length {
                    cached + 1
                } else {
                    self.config.max_context_length as int
                },
    {
        let layout = HeadLayout {
            num_heads: self.config.num_attention_heads,
            num_kv_heads: self.config.num_kv_heads,
            head_dim: self.config.head_dim,
        };
        plan_single_token(&layout, cached, self.config.max_context_length, keys_len, values_len)
    }

    /// Begins a pass for the logits after the last token.
    pub fn forward(&self, tokens: &Vec<u32>) -> (r: ArchResult<Pass>)
        requires
            rows_reached(
                self.token_embd@,
                self.config.hidden_size as nat,
                self.config.vocab_size as nat,
                tokens@,
            ),
            tokens_failure(tokens@, self.config.vocab_size as nat, "forward"@) is None
                ==> self.position() + tokens@.len() <= usize::MAX,
        ensures
            follows(r, tokens_failure(tokens@, self.config.vocab_size as nat, "forward"@)),
            r matches Ok(p) ==> p.begins(
                Order::LayerByLayer,
                self.layers@.len(),
                self.position(),
                self.token_embd@,
                self.config.hidden_size as nat,
                tokens@,
            ),
    {
        begin_pass(
            &self.token_embd,
            self.config.hidden_size,
            self.config.vocab_size,
            tokens,
            "forward",
            Order::LayerByLayer,
            self.layers.len(),
            self.current_pos,
        )
    }

    /// Begins a pass for the embedding of the last token.
    pub fn embed(&self, tokens: &Vec<u32>) -> (r: ArchResult<Pass>)
        requires
            rows_reached(
                self.token_embd@,
                self.config.hidden_size as nat,
                self.config.vocab_size as nat,
                tokens@,
            ),
            tokens_failure(tokens@, self.config.vocab_size as nat, "embed"@) is None
                ==> self.position() + tokens@.len() <= usize::MAX,
        ensures
            follows(r, tokens_failure(tokens@, self.config.vocab_size as nat, "embed"@)),
            r matches Ok(p) ==> p.begins(
                Order::LayerByLayer,
                self.layers@.len(),
                self.position(),
                self.token_embd@,
                self.config.hidden_size as nat,
                tokens@,
            ),
    {
        begin_pass(
            &self.token_embd,
            self.config.hidden_size,
            self.config.vocab_size,
            tokens,
            "embed",
            Order::LayerByLayer,
            self.layers.len(),
            self.current_pos,
        )
    }

    /// Ends a pass that succeeded: the next token comes after its tokens. A
    /// pass that failed is not ended, and leaves the position as it was.
    pub fn end_pass(&mut self, pass: &Pass)
        requires
            old(self).position() + pass.shape.tokens <= usize::MAX,
        ensures
            final(self).same_weights(old(self)),
            final(self).position() == old(self).position() + pass.shape.tokens,
    {
        self.current_pos = self.current_pos + pass.shape.tokens;
    }

    /// The table of angles.
    pub fn rope(&self) -> (t: RopeTable)
        requires
            self.config.max_context_length * (self.config.head_dim / 2) <= usize::MAX,
        ensures
            t.is_table(
                self.config.head_dim,
                self.config.max_context_length as nat,
                standard(self.config.rope_freq_base),
            ),
    {
        RopeTable::new_standard(
            self.config.head_dim,
            self.config.max_context_length,
            self.config.rope_freq_base,
        )
    }

    /// Number of tokens in the vocabulary: the length of the logits.
    pub fn vocab_size(&self) -> (n: usize)
        ensures
            n == self.config.vocab_size,
    {
        self.config.vocab_size
    }

    /// Greatest number of tokens in a context.
    pub fn max_context_length(&self) -> (n: usize)
        ensures
            n == self.config.max_context_length,
    {
        self.config.max_context_length
    }

    /// Size of a hidden state: the length of an embedding.
    pub fn hidden_size(&self) -> (n: usize)
        ensures
            n == self.config.hidden_size,
    {
        self.config.hidden_size
    }
}

/// A layer whose projections and experts are zero and whose norms scale by one.
pub fn make_dbrx_layer(
    hidden: usize,
    num_heads: usize,
    num_kv_heads: usize,
    head_dim: usize,
    n_experts: usize,
    top_k: usize,
    expert_inter: usize,
) -> (l: DbrxLayer)
    requires
        zero_layer_fits(hidden, num_heads, num_kv_heads, head_dim, n_experts, expert_inter),
    ensures
        is_unit_norm(l.attn_norm, hidden as int),
        is_zero_linear(l.attn_q, num_heads * head_dim, hidden as int),
        is_zero_linear(l.attn_k, num_kv_heads * head_dim, hidden as int),
        is_zero_linear(l.attn_v, num_kv_heads * head_dim, hidden as int),
        is_zero_linear(l.attn_output, hidden as int, num_heads * head_dim),
        is_unit_norm(l.ffn_norm, hidden as int),
        is_zero_moe(l.moe_weights, hidden, expert_inter, n_experts),
        l.moe_config == routed_config(hidden, expert_inter, n_experts, top_k),
{
    let q: usize = num_heads * head_dim;
    let kv: usize = num_kv_heads * head_dim;
    proof {
        assert(hidden * q == q * hidden) by (nonlinear_arith);
    }
    DbrxLayer {
        attn_norm: unit_norm(hidden),
        attn_q: zero_linear(q, hidden),
        attn_k: zero_linear(kv, hidden),
        attn_v: zero_linear(kv, hidden),
        attn_output: zero_linear(hidden, q),
        ffn_norm: unit_norm(hidden),
        moe_weights: zero_moe(hidden, expert_inter, n_experts),
        moe_config: routed_only(hidden, expert_inter, n_experts, top_k),
    }
}

/// A model of given weights.
pub fn build_dbrx_model(
    config: ModelConfig,
    dbrx_config: DbrxConfig,
    token_embd: Vec<u32>,
    layers: Vec<DbrxLayer>,
    output_norm: RmsNorm,
    output: QuantLinear,
) -> (m: DbrxModel)
    ensures
        m.config == config,
        m.dbrx_config == dbrx_config,
        m.token_embd == token_embd,
        m.layers == layers,
        m.output_norm == output_norm,
        m.output == output,
        m.position() == 0,
{
    DbrxModel::new(config, dbrx_config, token_embd, layers, output_norm, output)
}

/// Why block `i` cannot be loaded, if it cannot.
pub open spec fn layer_failure(m: TensorMap, c: DbrxConfig, i: nat) -> Option<ArchErrorView> {
    first_of(
        values_failure(m, block_tensor(i, ".attn_norm.weight"@)),
        first_of(
            bytes_failure(m, block_tensor(i, ".attn_q.weight"@)),
            first_of(
                bytes_failure(m, block_tensor(i, ".attn_k.weight"@)),
                first_of(
                    bytes_failure(m, block_tensor(i, ".attn_v.weight"@)),
                    first_of(
                        bytes_failure(m, block_tensor(i, ".attn_output.weight"@)),
                        first_of(
                            values_failure(m, block_tensor(i, ".ffn_norm.weight"@)),
                            stack_failure(
                                m,
                                i,
                                c.expert_count,
                                c.ffn_hidden_size,
                                c.hidden_size,
                            ),
                        ),
                    ),
                ),
            ),
        ),
    )
}

/// The failures of the blocks.
pub open spec fn layer_failures(m: TensorMap, c: DbrxConfig) -> spec_fn(nat) -> Option<
    ArchErrorView,
> {
    |i: nat| layer_failure(m, c, i)
}

/// Why the weights of a model cannot be loaded, if they cannot.
pub open spec fn weights_failure(m: TensorMap, c: DbrxConfig) -> Option<ArchErrorView> {
    first_of(
        values_failure(m, "token_embd.weight"@),
        first_of(
            first_failure(layer_failures(m, c), c.num_layers as nat),
            values_failure(m, "output_norm.weight"@),
        ),
    )
}

/// Why a model cannot be loaded, if it cannot: the metadata names no
/// architecture, or a tensor is not there or not as it should be. A missing
/// output projection is no failure.
pub open spec fn dbrx_failure(meta: MetadataMap, m: TensorMap) -> Option<ArchErrorView> {
    if meta_text(meta, "general.architecture"@) is None {
        Some(ArchErrorView::UnknownArchitecture { arch_id: "<missing>"@ })
    } else {
        weights_failure(m, dbrx_config_of(meta))
    }
}

/// Whether a layer holds the tensors of block `i`.
pub open spec fn is_layer(l: DbrxLayer, m: TensorMap, c: DbrxConfig, i: nat) -> bool {
    &&& is_norm(l.attn_norm, m, block_tensor(i, ".attn_norm.weight"@), c.rms_norm_eps)
    &&& is_linear(l.attn_q, m, block_tensor(i, ".attn_q.weight"@))
    &&& is_linear(l.attn_k, m, block_tensor(i, ".attn_k.weight"@))
    &&& is_linear(l.attn_v, m, block_tensor(i, ".attn_v.weight"@))
    &&& is_linear(l.attn_output, m, block_tensor(i, ".attn_output.weight"@))
    &&& is_norm(l.ffn_norm, m, block_tensor(i, ".ffn_norm.weight"@), c.rms_norm_eps)
    &&& is_stack_of(
        ExpertStack { router: l.moe_weights.router, experts: l.moe_weights.routed_experts },
        m,
        i,
        c.expert_count,
        c.ffn_hidden_size,
        c.hidden_size,
    )
    &&& l.moe_weights.shared_experts@.len() == 0
    &&& l.moe_weights.expert_bias is None
    &&& l.moe_config == routed_config(
        c.hidden_size,
        c.ffn_hidden_size,
        c.expert_count,
        c.expert_used_count,
    )
}

/// The tensor of the output projection: its own, or that of the embedding
/// where its own is not there.
pub open spec fn output_name(m: TensorMap) -> Seq<char> {
    if bytes_failure(m, "output.weight"@) is None {
        "output.weight"@
    } else {
        "token_embd.weight"@
    }
}

/// Whether a model holds the tensors of a file.
pub open spec fn is_dbrx(model: DbrxModel, meta: MetadataMap, m: TensorMap) -> bool {
    let c = dbrx_config_of(meta);
    &&& model.config@ == model_config_of(meta, meta_text(meta, "general.architecture"@)->0)
    &&& model.dbrx_config == c
    &&& model.token_embd@ == values_of(m, "token_embd.weight"@)
    &&& model.layers@.len() == c.num_layers
    &&& forall|i: int|
        0 <= i < model.layers@.len() ==> is_layer(#[trigger] model.layers@[i], m, c, i as nat)
    &&& is_norm(model.output_norm, m, "output_norm.weight"@, c.rms_norm_eps)
    &&& is_linear(model.output, m, output_name(m))
    &&& model.position() == 0
}

fn load_layer(model: &GgufModel, i: usize, c: &DbrxConfig) -> (r: ArchResult<DbrxLayer>)
    ensures
        follows(r, layer_failure(model.tensors@, *c, i as nat)),
        r matches Ok(l) ==> is_layer(l, model.tensors@, *c, i as nat),
{
    let eps: u32 = c.rms_norm_eps;
    let attn_norm = load_rms_norm(model, block_name(i, ".attn_norm.weight").as_str(), eps)?;
    let attn_q = load_quant_linear(model, block_name(i, ".attn_q.weight").as_str())?;
    let attn_k = load_quant_linear(model, block_name(i, ".attn_k.weight").as_str())?;
    let attn_v = load_quant_linear(model, block_name(i, ".attn_v.weight").as_str())?;
    let attn_output = load_quant_linear(model, block_name(i, ".attn_output.weight").as_str())?;
    let ffn_norm = load_rms_norm(model, block_name(i, ".ffn_norm.weight").as_str(), eps)?;
    let stack = load_expert_stack(model, i, c.expert_count, c.ffn_hidden_size, c.hidden_size)?;
    let moe_weights = MoeWeights {
        router: stack.router,
        routed_experts: stack.experts,
        shared_experts: Vec::new(),
        expert_bias: None,
    };
    let moe_config = routed_only(
        c.hidden_size,
        c.ffn_hidden_size,
        c.expert_count,
        c.expert_used_count,
    );
    Ok(
        DbrxLayer {
            attn_norm,
            attn_q,
            attn_k,
            attn_v,
            attn_output,
            ffn_norm,
            moe_weights,
            moe_config,
        },
    )
}

/// Loads a model: its configuration from the metadata, and every tensor by its
/// name.
pub fn load_dbrx_from_gguf(model: &GgufModel) -> (r: ArchResult<DbrxModel>)
    requires
        ModelConfig::metadata_fits(model.metadata@),
        meta_text(model.metadata@, "general.architecture"@) is Some ==> DbrxConfig::metadata_fits(
            model.metadata@,
        ),
    ensures
        follows(r, dbrx_failure(model.metadata@, model.tensors@)),
        r matches Ok(d) ==> is_dbrx(d, model.metadata@, model.tensors@),
{
    let config = ModelConfig::from_metadata(&model.metadata)?;
    let c = DbrxConfig::from_metadata(&model.metadata);
    let token_embd = load_dequant_tensor(model, "token_embd.weight")?;
    let ghost failures = layer_failures(model.tensors@, c);
    let mut layers: Vec<DbrxLayer> = Vec::new();
    let mut i: usize = 0;
    while i < c.num_layers
        invariant
            i <= c.num_layers,
            c == dbrx_config_of(model.metadata@),
            meta_text(model.metadata@, "general.architecture"@) is Some,
            failures == layer_failures(model.tensors@, c),
            values_failure(model.tensors@, "token_embd.weight"@) is None,
            first_failure(failures, i as nat) is None,
            layers@.len() == i,
            forall|j: int|
                0 <= j < i ==> is_layer(#[trigger] layers@[j], model.tensors@, c, j as nat),
        decreases c.num_layers - i,
    {
        match load_layer(model, i, &c) {
            Ok(l) => {
                layers.push(l);
            },
            Err(e) => {
                proof {
                    lemma_first_failure(failures, i as nat, c.num_layers as nat);
                }
                return Err(e);
            },
        }
        i = i + 1;
    }
    let output_norm = load_rms_norm(model, "output_norm.weight", c.rms_norm_eps)?;
    let output = match load_quant_linear(model, "output.weight") {
        Ok(l) => l,
        Err(_) => load_quant_linear(model, "token_embd.weight")?,
    };
    Ok(DbrxModel::new(config, c, token_embd, layers, output_norm, output))
}

/// Whether the file has an output projection never decides whether a model
/// loads: two files that differ only there load or fail alike.
pub proof fn law_output_is_optional(meta: MetadataMap, m: TensorMap, n: TensorMap)
    requires
        forall|k: Seq<char>| k != "output.weight"@ ==> #[trigger] same_tensor(m, n, k),
    ensures
        dbrx_failure(meta, m) == dbrx_failure(meta, n),
{
    reveal_strlit("output.weight");
    reveal_strlit("token_embd.weight");
    reveal_strlit("output_norm.weight");
    assert("token_embd.weight"@.len() != "output.weight"@.len());
    assert("output_norm.weight"@.len() != "output.weight"@.len());
    lemma_same_tensor(m, n, "token_embd.weight"@);
    lemma_same_tensor(m, n, "output_norm.weight"@);
    let c = dbrx_config_of(meta);
    assert forall|i: nat, s: Seq<char>| #[trigger] block_tensor(i, s) != "output.weight"@ by {
        reveal_strlit("blk.");
        assert(block_tensor(i, s)[0] == 'b');
    }
    lemma_same_layer_failures(m, n, c, c.num_layers as nat);
}

proof fn lemma_same_layer_failures(m: TensorMap, n: TensorMap, c: DbrxConfig, k: nat)
    requires
        forall|i: nat, s: Seq<char>| same_tensor(m, n, #[trigger] block_tensor(i, s)),
    ensures
        first_failure(layer_failures(m, c), k) == first_failure(layer_failures(n, c), k),
    decreases k,
{
    if k > 0 {
        let i = (k - 1) as nat;
        lemma_same_layer_failures(m, n, c, i);
        lemma_same_tensor(m, n, block_tensor(i, ".attn_norm.weight"@));
        lemma_same_tensor(m, n, block_tensor(i, ".attn_q.weight"@));
        lemma_same_tensor(m, n, block_tensor(i, ".attn_k.weight"@));
        lemma_same_tensor(m, n, block_tensor(i, ".attn_v.weight"@));
        lemma_same_tensor(m, n, block_tensor(i, ".attn_output.weight"@));
        lemma_same_tensor(m, n, block_tensor(i, ".ffn_norm.weight"@));
        lemma_same_tensor(m, n, router_name(i));
        lemma_same_tensor(m, n, gate_stack_name(i));
        lemma_same_tensor(m, n, up_stack_name(i));
        lemma_same_tensor(m, n, down_stack_name(i));
        assert(layer_failure(m, c, i) == layer_failure(n, c, i));
    }
}

/// Two passes in a row take up positions without a gap: the second begins
/// where the first ended.
pub proof fn law_passes_are_contiguous(
    before: DbrxModel,
    first: Pass,
    after: DbrxModel,
    second: Pass,
    a: Seq<u32>,
    b: Seq<u32>,
)
    requires
        first.begins(
            Order::LayerByLayer,
            before.layers@.len(),
            before.position(),
            before.token_embd@,
            before.config.hidden_size as nat,
            a,
        ),
        after.position() == before.position() + first.shape.tokens,
        second.begins(
            Order::LayerByLayer,
            after.layers@.len(),
            after.position(),
            after.token_embd@,
            after.config.hidden_size as nat,
            b,
        ),
    ensures
        second.shape.start == first.shape.start + a.len(),
{
}

/// The configuration that all families share and the family's own have one base
/// frequency, where both were read from the metadata of a model of this family.
pub proof fn law_base_frequencies_agree(m: MetadataMap)
    ensures
        model_config_of(m, "dbrx"@).rope_freq_base == dbrx_config_of(m).rope_theta,
{
    reveal_strlit("dbrx");
    reveal_strlit(".rope.freq_base");
    reveal_strlit("dbrx.rope.freq_base");
    assert("dbrx"@ + ".rope.freq_base"@ =~= "dbrx.rope.freq_base"@);
}

/// In a loaded model every weight is that of the tensor that is named after it:
/// `blk.{i}` and the name of the part for layer `i`, and the bare name for the
/// parts that the layers share.
pub proof fn law_tensors_are_where_their_names_say(
    model: DbrxModel,
    meta: MetadataMap,
    m: TensorMap,
    i: int,
)
    requires
        is_dbrx(model, meta, m),
        0 <= i < model.layers@.len(),
    ensures
        model.layers@[i].attn_norm.weight@
            == m["blk."@ + decimal(i as nat) + ".attn_norm.weight"@].decode()->Ok_0,
        model.layers@[i].attn_norm.eps == model.dbrx_config.rms_norm_eps,
        model.layers@[i].ffn_norm.weight@
            == m["blk."@ + decimal(i as nat) + ".ffn_norm.weight"@].decode()->Ok_0,
        model.layers@[i].ffn_norm.eps == model.dbrx_config.rms_norm_eps,
        m["blk."@ + decimal(i as nat) + ".attn_q.weight"@].bytes()
            == Some(model.layers@[i].attn_q.weight.data@),
        model.layers@[i].attn_q.weight.shape@
            == m["blk."@ + decimal(i as nat) + ".attn_q.weight"@].dims(),
        model.layers@[i].attn_q.weight.tensor_type
            == m["blk."@ + decimal(i as nat) + ".attn_q.weight"@].kind(),
        model.layers@[i].attn_q.lora is None,
        model.layers@[i].attn_q.bias is None,
        m["blk."@ + decimal(i as nat) + ".attn_k.weight"@].bytes()
            == Some(model.layers@[i].attn_k.weight.data@),
        model.layers@[i].attn_k.weight.shape@
            == m["blk."@ + decimal(i as nat) + ".attn_k.weight"@].dims(),
        model.layers@[i].attn_k.weight.tensor_type
            == m["blk."@ + decimal(i as nat) + ".attn_k.weight"@].kind(),
        model.layers@[i].attn_k.lora is None,
        model.layers@[i].attn_k.bias is None,
        m["blk."@ + decimal(i as nat) + ".attn_v.weight"@].bytes()
            == Some(model.layers@[i].attn_v.weight.data@),
        model.layers@[i].attn_v.weight.shape@
            == m["blk."@ + decimal(i as nat) + ".attn_v.weight"@].dims(),
        model.layers@[i].attn_v.weight.tensor_type
            == m["blk."@ + decimal(i as nat) + ".attn_v.weight"@].kind(),
        model.layers@[i].attn_v.lora is None,
        model.layers@[i].attn_v.bias is None,
        m["blk."@ + decimal(i as nat) + ".attn_output.weight"@].bytes()
            == Some(model.layers@[i].attn_output.weight.data@),
        model.layers@[i].attn_output.weight.shape@
            == m["blk."@ + decimal(i as nat) + ".attn_output.weight"@].dims(),
        model.layers@[i].attn_output.weight.tensor_type
            == m["blk."@ + decimal(i as nat) + ".attn_output.weight"@].kind(),
        model.layers@[i].attn_output.lora is None,
        model.layers@[i].attn_output.bias is None,
        model.layers@[i].moe_weights.router@
            == m["blk."@ + decimal(i as nat) + ".ffn_gate_inp.weight"@].decode()->Ok_0,
        model.layers@[i].moe_weights.routed_experts@.len() == model.dbrx_config.expert_count,
        model.layers@[i].moe_weights.shared_experts@.len() == 0,
        model.layers@[i].moe_weights.expert_bias is None,
        model.layers@[i].moe_config.hidden_size == model.dbrx_config.hidden_size,
        model.layers@[i].moe_config.expert_intermediate_size == model.dbrx_config.ffn_hidden_size,
        model.layers@[i].moe_config.n_routed_experts == model.dbrx_config.expert_count,
        model.layers@[i].moe_config.top_k == model.dbrx_config.expert_used_count,
        model.layers@[i].moe_config.n_shared_experts == 0,
        model.layers@.len() == model.dbrx_config.num_layers,
        model.token_embd@ == m["token_embd.weight"@].decode()->Ok_0,
        model.output_norm.weight@ == m["output_norm.weight"@].decode()->Ok_0,
        model.output_norm.eps == model.dbrx_config.rms_norm_eps,
        m.contains_key("output.weight"@) && m["output.weight"@].bytes() is Some
            ==> m["output.weight"@].bytes() == Some(model.output.weight.data@),
        !(m.contains_key("output.weight"@) && m["output.weight"@].bytes() is Some)
            ==> m["token_embd.weight"@].bytes() == Some(model.output.weight.data@),
        model.current_pos == 0,
{
    assert(is_layer(model.layers@[i], m, model.dbrx_config, i as nat));
}

/// Every hyperparameter of the family is the value under its own key, or its own
/// default where there is none. An expert's inner size defaults to its share of
/// four times the hidden size.
pub proof fn law_hyperparameters_have_their_keys(m: MetadataMap)
    ensures
        meta_u32(m, "dbrx.embedding_length"@) matches Some(v)
            ==> dbrx_config_of(m).hidden_size == v,
        meta_u32(m, "dbrx.embedding_length"@) is None ==> dbrx_config_of(m).hidden_size == 6144,
        meta_u32(m, "dbrx.block_count"@) matches Some(v) ==> dbrx_config_of(m).num_layers == v,
        meta_u32(m, "dbrx.block_count"@) is None ==> dbrx_config_of(m).num_layers == 40,
        meta_u32(m, "dbrx.attention.head_count"@) matches Some(v)
            ==> dbrx_config_of(m).num_heads == v,
        meta_u32(m, "dbrx.attention.head_count"@) is None ==> dbrx_config_of(m).num_heads == 48,
        meta_u32(m, "dbrx.attention.head_count_kv"@) matches Some(v)
            ==> dbrx_config_of(m).num_kv_heads == v,
        meta_u32(m, "dbrx.attention.head_count_kv"@) is None
            ==> dbrx_config_of(m).num_kv_heads == dbrx_config_of(m).num_heads,
        meta_u32(m, "dbrx.context_length"@) matches Some(v) ==> dbrx_config_of(m).max_seq_len == v,
        meta_u32(m, "dbrx.context_length"@) is None ==> dbrx_config_of(m).max_seq_len == 32768,
        meta_u32(m, "dbrx.expert_count"@) matches Some(v) ==> dbrx_config_of(m).expert_count == v,
        meta_u32(m, "dbrx.expert_count"@) is None ==> dbrx_config_of(m).expert_count == 16,
        meta_u32(m, "dbrx.expert_used_count"@) matches Some(v)
            ==> dbrx_config_of(m).expert_used_count == v,
        meta_u32(m, "dbrx.expert_used_count"@) is None ==> dbrx_config_of(m).expert_used_count == 4,
        meta_u32(m, "dbrx.vocab_size"@) matches Some(v) ==> dbrx_config_of(m).vocab_size == v,
        meta_u32(m, "dbrx.vocab_size"@) is None
            ==> (meta_u32(m, "tokenizer.ggml.tokens.length"@) matches Some(v)
            ==> dbrx_config_of(m).vocab_size == v),
        meta_u32(m, "dbrx.vocab_size"@) is None
            && meta_u32(m, "tokenizer.ggml.tokens.length"@) is None
            ==> dbrx_config_of(m).vocab_size == 32000,
        meta_f32(m, "dbrx.rope.freq_base"@) matches Some(b) ==> dbrx_config_of(m).rope_theta == b,
        meta_f32(m, "dbrx.rope.freq_base"@) is None ==> dbrx_config_of(m).rope_theta == 0x461C_4000,
        meta_f32(m, "dbrx.attention.layer_norm_rms_epsilon"@) matches Some(b)
            ==> dbrx_config_of(m).rms_norm_eps == b,
        meta_f32(m, "dbrx.attention.layer_norm_rms_epsilon"@) is None
            ==> dbrx_config_of(m).rms_norm_eps == 0x3727_C5AC,
        dbrx_config_of(m).num_heads > 0
            ==> dbrx_config_of(m).head_dim
            == dbrx_config_of(m).hidden_size / dbrx_config_of(m).num_heads,
        dbrx_config_of(m).num_heads == 0 ==> dbrx_config_of(m).head_dim == 128,
        meta_u32(m, "dbrx.feed_forward_length"@) matches Some(v)
            ==> dbrx_config_of(m).ffn_hidden_size == v,
        meta_u32(m, "dbrx.feed_forward_length"@) is None && dbrx_config_of(m).expert_count > 0
            && 4 * dbrx_config_of(m).hidden_size <= usize::MAX
            ==> dbrx_config_of(m).ffn_hidden_size
            == 4 * dbrx_config_of(m).hidden_size / dbrx_config_of(m).expert_count as int,
{
    let c = dbrx_config_of(m);
    if c.expert_count > 0 && 4 * c.hidden_size <= usize::MAX {
        assert(c.hidden_size * 4 / c.expert_count as int <= c.hidden_size * 4 && 0 <= c.hidden_size
            * 4 / c.expert_count as int) by (nonlinear_arith)
            requires
                c.expert_count > 0,
        ;
    }
}

/// The family names its tensors in this order, says which of them a model cannot do
/// without, and describes each.
pub proof fn law_tensors_are_named_in_order(a: DbrxArchitecture)
    ensures
        a.id() == "dbrx"@,
        a.tensors() == dbrx_patterns(),
        dbrx_patterns().len() == 13,
        dbrx_patterns()[0].pattern == "token_embd.weight"@ && dbrx_patterns()[0].required,
        dbrx_patterns()[1].pattern == "output_norm.weight"@ && dbrx_patterns()[1].required,
        dbrx_patterns()[2].pattern == "output.weight"@ && dbrx_patterns()[2].required,
        dbrx_patterns()[3].pattern == "blk.*.attn_norm.weight"@ && dbrx_patterns()[3].required,
        dbrx_patterns()[4].pattern == "blk.*.attn_q.weight"@ && dbrx_patterns()[4].required,
        dbrx_patterns()[5].pattern == "blk.*.attn_k.weight"@ && dbrx_patterns()[5].required,
        dbrx_patterns()[6].pattern == "blk.*.attn_v.weight"@ && dbrx_patterns()[6].required,
        dbrx_patterns()[7].pattern == "blk.*.attn_output.weight"@ && dbrx_patterns()[7].required,
        dbrx_patterns()[8].pattern == "blk.*.ffn_norm.weight"@ && dbrx_patterns()[8].required,
        dbrx_patterns()[9].pattern == "blk.*.ffn_gate_inp.weight"@ && dbrx_patterns()[9].required,
        dbrx_patterns()[10].pattern == "blk.*.ffn_gate_exps.weight"@
            && dbrx_patterns()[10].required,
        dbrx_patterns()[11].pattern == "blk.*.ffn_up_exps.weight"@ && dbrx_patterns()[11].required,
        dbrx_patterns()[12].pattern == "blk.*.ffn_down_exps.weight"@
            && dbrx_patterns()[12].required,
        dbrx_patterns()[0].description == "Token embedding table"@,
        dbrx_patterns()[1].description == "Final RMSNorm scale"@,
        dbrx_patterns()[2].description == "LM head projection"@,
        dbrx_patterns()[3].description == "Per-layer pre-attention RMSNorm"@,
        dbrx_patterns()[4].description == "Query projection"@,
        dbrx_patterns()[5].description == "Key projection"@,
        dbrx_patterns()[6].description == "Value projection"@,
        dbrx_patterns()[7].description == "Attention output projection"@,
        dbrx_patterns()[8].description == "Per-layer pre-FFN RMSNorm"@,
        dbrx_patterns()[9].description == "MoE router projection"@,
        dbrx_patterns()[10].description == "Stacked expert gate projections"@,
        dbrx_patterns()[11].description == "Stacked expert up projections"@,
        dbrx_patterns()[12].description == "Stacked expert down projections"@,
{
}

/// A model loads exactly where every tensor that it needs is there and can be had:
/// those that the layers share, and those of each of its layers.
#[verifier::rlimit(40)]
pub proof fn law_model_loads_where_its_tensors_are_there(m: TensorMap, c: DbrxConfig)
    ensures
        weights_failure(m, c) is None <==> {
            &&& values_failure(m, "token_embd.weight"@) is None
            &&& forall|i: nat|
                #![trigger decimal(i)]
                i < c.num_layers ==> {
                    &&& values_failure(m, "blk."@ + decimal(i) + ".attn_norm.weight"@) is None
                    &&& bytes_failure(m, "blk."@ + decimal(i) + ".attn_q.weight"@) is None
                    &&& bytes_failure(m, "blk."@ + decimal(i) + ".attn_k.weight"@) is None
                    &&& bytes_failure(m, "blk."@ + decimal(i) + ".attn_v.weight"@) is None
                    &&& bytes_failure(m, "blk."@ + decimal(i) + ".attn_output.weight"@) is None
                    &&& values_failure(m, "blk."@ + decimal(i) + ".ffn_norm.weight"@) is None
                    &&& stack_failure(m, i, c.expert_count, c.ffn_hidden_size, c.hidden_size) is None
                }
            &&& values_failure(m, "output_norm.weight"@) is None
        },
{
    let f = layer_failures(m, c);
    let n = c.num_layers as nat;
    law_first_failing_part_is_reported(f, n);
    assert forall|i: nat|
        #![trigger decimal(i)]
        i < n && first_failure(f, n) is None implies {
        &&& values_failure(m, "blk."@ + decimal(i) + ".attn_norm.weight"@) is None
        &&& bytes_failure(m, "blk."@ + decimal(i) + ".attn_q.weight"@) is None
        &&& bytes_failure(m, "blk."@ + decimal(i) + ".attn_k.weight"@) is None
        &&& bytes_failure(m, "blk."@ + decimal(i) + ".attn_v.weight"@) is None
        &&& bytes_failure(m, "blk."@ + decimal(i) + ".attn_output.weight"@) is None
        &&& values_failure(m, "blk."@ + decimal(i) + ".ffn_norm.weight"@) is None
        &&& stack_failure(m, i, c.expert_count, c.ffn_hidden_size, c.hidden_size) is None
    } by {
        assert(f(i) is None);
        assert(layer_failure(m, c, i) is None);
    }
    if forall|i: nat|
        #![trigger decimal(i)]
        i < n ==> {
            &&& values_failure(m, "blk."@ + decimal(i) + ".attn_norm.weight"@) is None
            &&& bytes_failure(m, "blk."@ + decimal(i) + ".attn_q.weight"@) is None
            &&& bytes_failure(m, "blk."@ + decimal(i) + ".attn_k.weight"@) is None
            &&& bytes_failure(m, "blk."@ + decimal(i) + ".attn_v.weight"@) is None
            &&& bytes_failure(m, "blk."@ + decimal(i) + ".attn_output.weight"@) is None
            &&& values_failure(m, "blk."@ + decimal(i) + ".ffn_norm.weight"@) is None
            &&& stack_failure(m, i, c.expert_count, c.ffn_hidden_size, c.hidden_size) is None
        } {
        assert forall|i: nat| i < n implies (#[trigger] f(i)) is None by {
            let d = decimal(i);
            assert(layer_failure(m, c, i) is None);
        }
    }
}

/// Of the tensors of a block the first that cannot be had, in the order of loading,
/// is the one that is reported.
pub proof fn law_first_missing_part_of_a_block_is_reported(m: TensorMap, c: DbrxConfig, i: nat)
    ensures
        values_failure(m, "blk."@ + decimal(i) + ".attn_norm.weight"@) is Some
            ==> layer_failure(m, c, i)
            == values_failure(m, "blk."@ + decimal(i) + ".attn_norm.weight"@),
        values_failure(m, "blk."@ + decimal(i) + ".attn_norm.weight"@) is None
            && bytes_failure(m, "blk."@ + decimal(i) + ".attn_q.weight"@) is Some
            ==> layer_failure(m, c, i)
            == bytes_failure(m, "blk."@ + decimal(i) + ".attn_q.weight"@),
        values_failure(m, "blk."@ + decimal(i) + ".attn_norm.weight"@) is None
            && bytes_failure(m, "blk."@ + decimal(i) + ".attn_q.weight"@) is None
            && bytes_failure(m, "blk."@ + decimal(i) + ".attn_k.weight"@) is Some
            ==> layer_failure(m, c, i)
            == bytes_failure(m, "blk."@ + decimal(i) + ".attn_k.weight"@),
        values_failure(m, "blk."@ + decimal(i) + ".attn_norm.weight"@) is None
            && bytes_failure(m, "blk."@ + decimal(i) + ".attn_q.weight"@) is None
            && bytes_failure(m, "blk."@ + decimal(i) + ".attn_k.weight"@) is None
            && bytes_failure(m, "blk."@ + decimal(i) + ".attn_v.weight"@) is Some
            ==> layer_failure(m, c, i)
            == bytes_failure(m, "blk."@ + decimal(i) + ".attn_v.weight"@),
        values_failure(m, "blk."@ + decimal(i) + ".attn_norm.weight"@) is None
            && bytes_failure(m, "blk."@ + decimal(i) + ".attn_q.weight"@) is None
            && bytes_failure(m, "blk."@ + decimal(i) + ".attn_k.weight"@) is None
            && bytes_failure(m, "blk."@ + decimal(i) + ".attn_v.weight"@) is None
            && bytes_failure(m, "blk."@ + decimal(i) + ".attn_output.weight"@) is Some
            ==> layer_failure(m, c, i)
            == bytes_failure(m, "blk."@ + decimal(i) + ".attn_output.weight"@),
        values_failure(m, "blk."@ + decimal(i) + ".attn_norm.weight"@) is None
            && bytes_failure(m, "blk."@ + decimal(i) + ".attn_q.weight"@) is None
            && bytes_failure(m, "blk."@ + decimal(i) + ".attn_k.weight"@) is None
            && bytes_failure(m, "blk."@ + decimal(i) + ".attn_v.weight"@) is None
            && bytes_failure(m, "blk."@ + decimal(i) + ".attn_output.weight"@) is None
            && values_failure(m, "blk."@ + decimal(i) + ".ffn_norm.weight"@) is Some
            ==> layer_failure(m, c, i)
            == values_failure(m, "blk."@ + decimal(i) + ".ffn_norm.weight"@),
        values_failure(m, "blk."@ + decimal(i) + ".attn_norm.weight"@) is None
            && bytes_failure(m, "blk."@ + decimal(i) + ".attn_q.weight"@) is None
            && bytes_failure(m, "blk."@ + decimal(i) + ".attn_k.weight"@) is None
            && bytes_failure(m, "blk."@ + decimal(i) + ".attn_v.weight"@) is None
            && bytes_failure(m, "blk."@ + decimal(i) + ".attn_output.weight"@) is None
            && values_failure(m, "blk."@ + decimal(i) + ".ffn_norm.weight"@) is None
            && stack_failure(m, i, c.expert_count, c.ffn_hidden_size, c.hidden_size) is Some
            ==> layer_failure(m, c, i)
            == stack_failure(m, i, c.expert_count, c.ffn_hidden_size, c.hidden_size),
{
}

/// What is reported of a model is the first failure in the order of loading: the
/// embedding table, then one block after another, then what follows the blocks.
pub proof fn law_blocks_are_loaded_in_order(m: TensorMap, c: DbrxConfig, k: nat)
    ensures
        values_failure(m, "token_embd.weight"@) is Some
            ==> weights_failure(m, c) == values_failure(m, "token_embd.weight"@),
        values_failure(m, "token_embd.weight"@) is None && k < c.num_layers
            && layer_failure(m, c, k) is Some && (forall|j: nat|
            #![trigger decimal(j)]
            j < k ==> layer_failure(m, c, j) is None)
                ==> weights_failure(m, c) == layer_failure(m, c, k),
{
    let f = layer_failures(m, c);
    law_first_failing_part_is_reported(f, c.num_layers as nat);
    if k < c.num_layers && layer_failure(m, c, k) is Some && (forall|j: nat|
        #![trigger decimal(j)]
        j < k ==> layer_failure(m, c, j) is None) {
        assert(f(k) is Some);
        assert forall|j: nat| j < k implies (#[trigger] f(j)) is None by {
            let d = decimal(j);
        }
    }
}

/// A file that does not name its architecture is refused for that, and any other
/// for its tensors.
pub proof fn law_architecture_is_needed(meta: MetadataMap, m: TensorMap)
    ensures
        meta_text(meta, "general.architecture"@) is None ==> dbrx_failure(meta, m) == Some(
            ArchErrorView::UnknownArchitecture { arch_id: "<missing>"@ },
        ),
        meta_text(meta, "general.architecture"@) is Some ==> dbrx_failure(meta, m)
            == weights_failure(m, dbrx_config_of(meta)),
{
}

/// Heads are those of the configuration that all families share.
pub proof fn law_heads_follow_configuration(model: DbrxModel)
    ensures
        model.layout().num_heads == model.config.num_attention_heads,
        model.layout().num_kv_heads == model.config.num_kv_heads,
        model.layout().head_dim == model.config.head_dim,
        model.position() == model.current_pos,
{
}

/// A model that has run differs from what it was in nothing but its position.
pub proof fn law_only_the_position_moves(a: DbrxModel, b: DbrxModel)
    requires
        b.same_weights(&a),
    ensures
        b == (DbrxModel { current_pos: b.current_pos, ..a }),
{
}

} // verus!
