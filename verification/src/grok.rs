//! Grok-1: a decoder with eight routed experts in each layer.

use crate::bits::{F32_1E_MINUS_5, F32_MILLION};
use crate::common::embedding::{rows_reached, tokens_failure};
use crate::common::heads::{
    head_reads_as_planned, plan_single_token, visible_tokens, HeadLayout, HeadReads,
};
use crate::common::linear::QuantLinear;
use crate::common::norm::RmsNorm;
use crate::common::pass::{begin_pass, Order, Pass};
use crate::common::rope::{standard, RopeTable};
use crate::common::sparse::{
    is_unit_norm, is_zero_linear, is_zero_moe, routed_config, routed_only, unit_norm,
    zero_layer_fits, zero_linear, zero_moe, MoeConfig, MoeWeights,
};
use crate::config::{
    at_least_one, div_or, or_one, quotient_or, vocab_or, vocab_size_or, ModelConfig,
};
use crate::error::{follows, missing_tensor, ArchErrorView, ArchResult};
use crate::gguf::GgufModel;
use crate::metadata::{bits_or, meta_f32, meta_u32, size_or, MetadataMap, MetadataStore};
use vstd::prelude::*;

verus! {

/// The hyperparameters of the family. Numbers of type `f32` are patterns.
#[derive(Debug, Clone, Copy, PartialEq, Eq)]
pub struct GrokConfig {
    /// Size of a hidden state.
    pub hidden_size: usize,
    /// Number of layers.
    pub num_layers: usize,
    /// Number of query heads.
    pub num_heads: usize,
    /// Number of key and value heads.
    pub num_kv_heads: usize,
    /// Size of one head.
    pub head_dim: usize,
    /// Number of tokens in the vocabulary.
    pub vocab_size: usize,
    /// Greatest number of tokens in a context.
    pub max_seq_len: usize,
    /// Number of experts.
    pub expert_count: usize,
    /// Number of experts that one token passes.
    pub expert_used_count: usize,
    /// Inner size of an expert.
    pub ffn_hidden_size: usize,
    /// Base frequency of the rotary embedding.
    pub rope_theta: u32,
    /// Epsilon of the norms.
    pub rms_norm_eps: u32,
}

/// The configuration that metadata describes.
pub open spec fn grok_config_of(m: MetadataMap) -> GrokConfig {
    let hidden = size_or(m, "grok.embedding_length"@, 6144);
    let heads = size_or(m, "grok.attention.head_count"@, 48);
    let experts = size_or(m, "grok.expert_count"@, 8);
    GrokConfig {
        hidden_size: hidden,
        num_layers: size_or(m, "grok.block_count"@, 64),
        num_heads: heads,
        num_kv_heads: size_or(m, "grok.attention.head_count_kv"@, heads),
        head_dim: quotient_or(hidden, heads, 128),
        vocab_size: vocab_or(m, "grok.vocab_size"@, 32000),
        max_seq_len: size_or(m, "grok.context_length"@, 8192),
        expert_count: experts,
        expert_used_count: size_or(m, "grok.expert_used_count"@, 2),
        ffn_hidden_size: size_or(
            m,
            "grok.feed_forward_length"@,
            (hidden * 4 / at_least_one(experts) as int) as usize,
        ),
        rope_theta: bits_or(m, "grok.rope.freq_base"@, F32_MILLION),
        rms_norm_eps: bits_or(m, "grok.attention.layer_norm_rms_epsilon"@, F32_1E_MINUS_5),
    }
}

impl GrokConfig {
    /// Whether four times the hidden size fits a machine word: the inner size of
    /// an expert defaults to its share of that.
    pub open spec fn metadata_fits(m: MetadataMap) -> bool {
        size_or(m, "grok.embedding_length"@, 6144) * 4 <= usize::MAX
    }

    /// Reads the configuration, with a default for every key that is missing.
    pub fn from_metadata(metadata: &MetadataStore) -> (c: Self)
        requires
            Self::metadata_fits(metadata@),
        ensures
            c == grok_config_of(metadata@),
    {
        let hidden_size: usize = metadata.usize_or("grok.embedding_length", 6144);
        let num_heads: usize = metadata.usize_or("grok.attention.head_count", 48);
        let expert_count: usize = metadata.usize_or("grok.expert_count", 8);
        let share: usize = hidden_size * 4 / or_one(expert_count);
        GrokConfig {
            hidden_size,
            num_layers: metadata.usize_or("grok.block_count", 64),
            num_heads,
            num_kv_heads: metadata.usize_or("grok.attention.head_count_kv", num_heads),
            head_dim: div_or(hidden_size, num_heads, 128),
            vocab_size: vocab_size_or(metadata, "grok.vocab_size", 32000),
            max_seq_len: metadata.usize_or("grok.context_length", 8192),
            expert_count,
            expert_used_count: metadata.usize_or("grok.expert_used_count", 2),
            ffn_hidden_size: metadata.usize_or("grok.feed_forward_length", share),
            rope_theta: metadata.f32_or("grok.rope.freq_base", F32_MILLION),
            rms_norm_eps: metadata.f32_or(
                "grok.attention.layer_norm_rms_epsilon",
                F32_1E_MINUS_5,
            ),
        }
    }
}

/// The weights of one layer.
#[derive(Debug)]
pub struct GrokLayer {
    /// Norm before attention.
    pub attn_norm: RmsNorm,
    /// Query projection.
    pub attn_q: QuantLinear,
    /// Key projection.
    pub attn_k: QuantLinear,
    /// Value projection.
    pub attn_v: QuantLinear,
    /// Output projection of attention.
    pub attn_output: QuantLinear,
    /// Norm before the experts.
    pub ffn_norm: RmsNorm,
    /// The experts.
    pub moe_weights: MoeWeights,
    /// The parameters of the experts.
    pub moe_config: MoeConfig,
}

/// A loaded model, and the position of the next token.
#[derive(Debug)]
pub struct GrokModel {
    /// The configuration that all families share.
    pub config: ModelConfig,
    /// The family's own configuration.
    pub grok_config: GrokConfig,
    /// The embedding table, one row for each token.
    pub token_embd: Vec<u32>,
    /// The layers.
    pub layers: Vec<GrokLayer>,
    /// Norm before the output projection.
    pub output_norm: RmsNorm,
    /// Output projection.
    pub output: QuantLinear,
    /// The position of the next token.
    pub current_pos: usize,
}

impl GrokModel {
    /// The position of the next token.
    pub open spec fn position(&self) -> nat {
        self.current_pos as nat
    }

    /// Whether only the position may differ from another model.
    pub open spec fn same_weights(&self, other: &GrokModel) -> bool {
        &&& self.config == other.config
        &&& self.grok_config == other.grok_config
        &&& self.token_embd == other.token_embd
        &&& self.layers == other.layers
        &&& self.output_norm == other.output_norm
        &&& self.output == other.output
    }

    /// A model of given weights, at the beginning of a sequence.
    pub fn new(
        config: ModelConfig,
        grok_config: GrokConfig,
        token_embd: Vec<u32>,
        layers: Vec<GrokLayer>,
        output_norm: RmsNorm,
        output: QuantLinear,
    ) -> (m: Self)
        ensures
            m.config == config,
            m.grok_config == grok_config,
            m.token_embd == token_embd,
            m.layers == layers,
            m.output_norm == output_norm,
            m.output == output,
            m.position() == 0,
    {
        GrokModel { config, grok_config, token_embd, layers, output_norm, output, current_pos: 0 }
    }

    /// Goes back to the beginning of a sequence.
    pub fn reset_position(&mut self)
        ensures
            final(self).same_weights(old(self)),
            final(self).position() == 0,
    {
        self.current_pos = 0;
    }

    /// The heads of a layer.
    pub open spec fn layout(&self) -> HeadLayout {
        HeadLayout {
            num_heads: self.config.num_attention_heads,
            num_kv_heads: self.config.num_kv_heads,
            head_dim: self.config.head_dim,
        }
    }

    /// Plans what the heads read when one token attends, with `cached` tokens
    /// in the cache before it and `keys_len` and `values_len` elements in the
    /// caches of the layer.
    pub fn attention_single_token(
        &self,
        cached: usize,
        keys_len: usize,
        values_len: usize,
    ) -> (plan: Vec<HeadReads>)
        requires
            self.layout().num_heads == 0 || self.layout().grouped(),
            self.layout().num_heads * self.layout().head_dim <= usize::MAX,
        ensures
            plan@.len() == self.config.num_attention_heads,
            forall|h: int|
                0 <= h < plan@.len() ==> head_reads_as_planned(
                    #[trigger] plan@[h],
                    self.layout(),
                    h,
                    visible_tokens(cached as nat, self.config.max_context_length as nat),
                    keys_len as int,
                    values_len as int,
                ),
            forall|h: int|
                0 <= h < plan@.len() ==> (#[trigger] plan@[h]).keys@.len() == if cached
                    < self.config.max_context_length {
                    cached + 1
                } else {
                    self.config.max_context_length as int
                },
    {
        let layout = HeadLayout {
            num_heads: self.config.num_attention_heads,
            num_kv_heads: self.config.num_kv_heads,
            head_dim: self.config.head_dim,
        };
        plan_single_token(&layout, cached, self.config.max_context_length, keys_len, values_len)
    }

    /// Begins a pass for the logits after the last token.
    pub fn forward(&self, tokens: &Vec<u32>) -> (r: ArchResult<Pass>)
        requires
            rows_reached(
                self.token_embd@,
                self.config.hidden_size as nat,
                self.config.vocab_size as nat,
                tokens@,
            ),
            tokens_failure(tokens@, self.config.vocab_size as nat, "forward"@) is None
                ==> self.position() + tokens@.len() <= usize::MAX,
        ensures
            follows(r, tokens_failure(tokens@, self.config.vocab_size as nat, "forward"@)),
            r matches Ok(p) ==> p.begins(
                Order::LayerByLayer,
                self.layers@.len(),
                self.position(),
                self.token_embd@,
                self.config.hidden_size as nat,
                tokens@,
            ),
    {
        begin_pass(
            &self.token_embd,
            self.config.hidden_size,
            self.config.vocab_size,
            tokens,
            "forward",
            Order::LayerByLayer,
            self.layers.len(),
            self.current_pos,
        )
    }

    /// Ends a pass that succeeded: the next token comes after its tokens. A
    /// pass that failed is not ended, and leaves the position as it was.
    pub fn end_pass(&mut self, pass: &Pass)
        requires
            old(self).position() + pass.shape.tokens <= usize::MAX,
        ensures
            final(self).same_weights(old(self)),
            final(self).position() == old(self).position() + pass.shape.tokens,
    {
        self.current_pos = self.current_pos + pass.shape.tokens;
    }

    /// The table of angles, of the family's own base frequency.
    pub fn rope(&self) -> (t: RopeTable)
        requires
            self.config.max_context_length * (self.config.head_dim / 2) <= usize::MAX,
        ensures
            t.is_table(
                self.config.head_dim,
                self.config.max_context_length as nat,
                standard(self.grok_config.rope_theta),
            ),
    {
        RopeTable::new_standard(
            self.config.head_dim,
            self.config.max_context_length,
            self.grok_config.rope_theta,
        )
    }

    /// Number of tokens in the vocabulary: the length of the logits.
    pub fn vocab_size(&self) -> (n: usize)
        ensures
            n == self.config.vocab_size,
    {
        self.config.vocab_size
    }

    /// Greatest number of tokens in a context.
    pub fn max_context_length(&self) -> (n: usize)
        ensures
            n == self.config.max_context_length,
    {
        self.config.max_context_length
    }

    /// Size of a hidden state: the length of an embedding.
    pub fn hidden_size(&self) -> (n: usize)
        ensures
            n == self.config.hidden_size,
    {
        self.config.hidden_size
    }
}

/// A layer whose projections and experts are zero and whose norms scale by one.
pub fn make_grok_layer(
    hidden: usize,
    num_heads: usize,
    num_kv_heads: usize,
    head_dim: usize,
    n_experts: usize,
    top_k: usize,
    expert_inter: usize,
) -> (l: GrokLayer)
    requires
        zero_layer_fits(hidden, num_heads, num_kv_heads, head_dim, n_experts, expert_inter),
    ensures
        is_unit_norm(l.attn_norm, hidden as int),
        is_zero_linear(l.attn_q, num_heads * head_dim, hidden as int),
        is_zero_linear(l.attn_k, num_kv_heads * head_dim, hidden as int),
        is_zero_linear(l.attn_v, num_kv_heads * head_dim, hidden as int),
        is_zero_linear(l.attn_output, hidden as int, num_heads * head_dim),
        is_unit_norm(l.ffn_norm, hidden as int),
        is_zero_moe(l.moe_weights, hidden, expert_inter, n_experts),
        l.moe_config == routed_config(hidden, expert_inter, n_experts, top_k),
{
    let q: usize = num_heads * head_dim;
    let kv: usize = num_kv_heads * head_dim;
    proof {
        assert(hidden * q == q * hidden) by (nonlinear_arith);
    }
    GrokLayer {
        attn_norm: unit_norm(hidden),
        attn_q: zero_linear(q, hidden),
        attn_k: zero_linear(kv, hidden),
        attn_v: zero_linear(kv, hidden),
        attn_output: zero_linear(hidden, q),
        ffn_norm: unit_norm(hidden),
        moe_weights: zero_moe(hidden, expert_inter, n_experts),
        moe_config: routed_only(hidden, expert_inter, n_experts, top_k),
    }
}

/// A model of given weights.
pub fn build_grok_model(
    config: ModelConfig,
    grok_config: GrokConfig,
    token_embd: Vec<u32>,
    layers: Vec<GrokLayer>,
    output_norm: RmsNorm,
    output: QuantLinear,
) -> (m: GrokModel)
    ensures
        m.config == config,
        m.grok_config == grok_config,
        m.token_embd == token_embd,
        m.layers == layers,
        m.output_norm == output_norm,
        m.output == output,
        m.position() == 0,
{
    GrokModel::new(config, grok_config, token_embd, layers, output_norm, output)
}

/// Answers a request to load a model: files of this family cannot be loaded,
/// so every request is refused.
pub fn load_grok_from_gguf(_model: &GgufModel) -> (r: ArchResult<GrokModel>)
    ensures
        r matches Err(e) && e@ == (ArchErrorView::MissingTensor {
            name: "load_grok_from_gguf: full loader not yet implemented; use build_grok_model() directly"@,
        }),
{
    Err(
        missing_tensor(
            "load_grok_from_gguf: full loader not yet implemented; use build_grok_model() directly",
        ),
    )
}

/// Two passes in a row take up positions without a gap: the second begins
/// where the first ended.
pub proof fn law_passes_are_contiguous(
    before: GrokModel,
    first: Pass,
    after: GrokModel,
    second: Pass,
    a: Seq<u32>,
    b: Seq<u32>,
)
    requires
        first.begins(
            Order::LayerByLayer,
            before.layers@.len(),
            before.position(),
            before.token_embd@,
            before.config.hidden_size as nat,
            a,
        ),
        after.position() == before.position() + first.shape.tokens,
        second.begins(
            Order::LayerByLayer,
            after.layers@.len(),
            after.position(),
            after.token_embd@,
            after.config.hidden_size as nat,
            b,
        ),
    ensures
        second.shape.start == first.shape.start + a.len(),
{
}

/// Every hyperparameter of the family is the value under its own key, or its own
/// default where there is none. An expert's inner size defaults to its share of
/// four times the hidden size.
pub proof fn law_hyperparameters_have_their_keys(m: MetadataMap)
    ensures
        meta_u32(m, "grok.embedding_length"@) matches Some(v)
            ==> grok_config_of(m).hidden_size == v,
        meta_u32(m, "grok.embedding_length"@) is None ==> grok_config_of(m).hidden_size == 6144,
        meta_u32(m, "grok.block_count"@) matches Some(v) ==> grok_config_of(m).num_layers == v,
        meta_u32(m, "grok.block_count"@) is None ==> grok_config_of(m).num_layers == 64,
        meta_u32(m, "grok.attention.head_count"@) matches Some(v)
            ==> grok_config_of(m).num_heads == v,
        meta_u32(m, "grok.attention.head_count"@) is None ==> grok_config_of(m).num_heads == 48,
        meta_u32(m, "grok.attention.head_count_kv"@) matches Some(v)
            ==> grok_config_of(m).num_kv_heads == v,
        meta_u32(m, "grok.attention.head_count_kv"@) is None
            ==> grok_config_of(m).num_kv_heads == grok_config_of(m).num_heads,
        meta_u32(m, "grok.context_length"@) matches Some(v) ==> grok_config_of(m).max_seq_len == v,
        meta_u32(m, "grok.context_length"@) is None ==> grok_config_of(m).max_seq_len == 8192,
        meta_u32(m, "grok.expert_count"@) matches Some(v) ==> grok_config_of(m).expert_count == v,
        meta_u32(m, "grok.expert_count"@) is None ==> grok_config_of(m).expert_count == 8,
        meta_u32(m, "grok.expert_used_count"@) matches Some(v)
            ==> grok_config_of(m).expert_used_count == v,
        meta_u32(m, "grok.expert_used_count"@) is None ==> grok_config_of(m).expert_used_count == 2,
        meta_u32(m, "grok.vocab_size"@) matches Some(v) ==> grok_config_of(m).vocab_size == v,
        meta_u32(m, "grok.vocab_size"@) is None
            ==> (meta_u32(m, "tokenizer.ggml.tokens.length"@) matches Some(v)
            ==> grok_config_of(m).vocab_size == v),
        meta_u32(m, "grok.vocab_size"@) is None
            && meta_u32(m, "tokenizer.ggml.tokens.length"@) is None
            ==> grok_config_of(m).vocab_size == 32000,
        meta_f32(m, "grok.rope.freq_base"@) matches Some(b) ==> grok_config_of(m).rope_theta == b,
        meta_f32(m, "grok.rope.freq_base"@) is None ==> grok_config_of(m).rope_theta == 0x4974_2400,
        meta_f32(m, "grok.attention.layer_norm_rms_epsilon"@) matches Some(b)
            ==> grok_config_of(m).rms_norm_eps == b,
        meta_f32(m, "grok.attention.layer_norm_rms_epsilon"@) is None
            ==> grok_config_of(m).rms_norm_eps == 0x3727_C5AC,
        grok_config_of(m).num_heads > 0
            ==> grok_config_of(m).head_dim
            == grok_config_of(m).hidden_size / grok_config_of(m).num_heads,
        grok_config_of(m).num_heads == 0 ==> grok_config_of(m).head_dim == 128,
        meta_u32(m, "grok.feed_forward_length"@) matches Some(v)
            ==> grok_config_of(m).ffn_hidden_size == v,
        meta_u32(m, "grok.feed_forward_length"@) is None && grok_config_of(m).expert_count > 0
            && 4 * grok_config_of(m).hidden_size <= usize::MAX
            ==> grok_config_of(m).ffn_hidden_size
            == 4 * grok_config_of(m).hidden_size / grok_config_of(m).expert_count as int,
        meta_u32(m, "grok.feed_forward_length"@) is None && grok_config_of(m).expert_count == 0
            && 4 * grok_config_of(m).hidden_size <= usize::MAX
            ==> grok_config_of(m).ffn_hidden_size == 4 * grok_config_of(m).hidden_size,
{
    let c = grok_config_of(m);
    let one = at_least_one(c.expert_count) as int;
    if one == 1 {
        assert(c.hidden_size * 4 / one == c.hidden_size * 4) by (nonlinear_arith)
            requires
                one == 1,
        ;
    }
    if c.expert_count > 0 && 4 * c.hidden_size <= usize::MAX {
        assert(c.hidden_size * 4 / c.expert_count as int <= c.hidden_size * 4 && 0 <= c.hidden_size
            * 4 / c.expert_count as int) by (nonlinear_arith)
            requires
                c.expert_count > 0,
        ;
    }
}

/// Heads are those of the configuration that all families share.
pub proof fn law_heads_follow_configuration(model: GrokModel)
    ensures
        model.layout().num_heads == model.config.num_attention_heads,
        model.layout().num_kv_heads == model.config.num_kv_heads,
        model.layout().head_dim == model.config.head_dim,
        model.position() == model.current_pos,
{
}

/// A model that has run differs from what it was in nothing but its position.
pub proof fn law_only_the_position_moves(a: GrokModel, b: GrokModel)
    requires
        b.same_weights(&a),
    ensures
        b == (GrokModel { current_pos: b.current_pos, ..a }),
{
}

} // verus!
