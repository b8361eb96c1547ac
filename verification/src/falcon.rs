//! Falcon: a decoder with parallel networks or grouped queries.

use crate::bits::{at_least, at_least_spec, is_positive, positive, F32_1E_MINUS_9, F32_TEN_THOUSAND};
use crate::common::embedding::{
    embed_reached, embed_token, lemma_reached_count, reached_count, row_failure, row_of,
};
use crate::common::heads::{
    attends, law_attention_plans_are_unique, law_strided_plans_are_grouped, plan_strided,
    same_reads, strided_as_planned, CausalReads, HeadLayout, Qkv,
};
use crate::common::linear::QuantTensor;
use crate::common::norm::LayerNorm;
use crate::common::pass::{NetworkInput, Order, PartialPass, Pass, PassShape};
use crate::common::rope::{standard, RopeTable};
use crate::common::sizes::row_starts;
use crate::config::{at_least_one, or_one, ModelConfig, ModelConfigView};
use crate::error::{follows, ArchResult};
use crate::gguf::TensorStore;
use crate::text::same_text;
use crate::traits::{
    add_pattern, build_refusal, no_patterns, pattern_views, refuse_build, tensor, ModelArchitecture,
    PatternView, TensorNamePattern,
};
use vstd::arithmetic::mul::lemma_mul_nonnegative;
use vstd::prelude::*;

verus! {

/// The family of models with the identifier `falcon`.
#[derive(Debug, Clone, Copy)]
pub struct FalconArchitecture;

impl FalconArchitecture {
    /// The family.
    pub fn new() -> (a: Self)
        ensures
            a == FalconArchitecture,
    {
        FalconArchitecture
    }

    /// Answers a request to build a model from its tensors' names: the tensors'
    /// data can only be had from a file, so every request is refused.
    pub fn build(&self, config: &ModelConfig, _tensors: &TensorStore) -> (r: ArchResult<()>)
        ensures
            r matches Err(e) && e@ == build_refusal(
                config@,
                "token_embd.weight (use FalconForward::from_gguf for full loading)"@,
            ),
    {
        refuse_build(
            config,
            "token_embd.weight (use FalconForward::from_gguf for full loading)",
        )
    }
}

impl Default for FalconArchitecture {
    fn default() -> (a: Self)
        ensures
            a == FalconArchitecture,
    {
        FalconArchitecture
    }
}

/// The tensors of the family.
pub open spec fn falcon_patterns() -> Seq<PatternView> {
    seq![
        tensor("token_embd.weight"@, "Token embedding matrix [vocab_size, hidden_size]"@, true),
        tensor("output_norm.weight"@, "Final LayerNorm scale weights"@, true),
        tensor("output_norm.bias"@, "Final LayerNorm bias"@, false),
        tensor("output.weight"@, "LM head / unembedding matrix [vocab_size, hidden_size]"@, true),
        tensor("blk.{i}.attn_norm.weight"@, "Pre-attention LayerNorm scale"@, true),
        tensor("blk.{i}.attn_norm.bias"@, "Pre-attention LayerNorm bias"@, false),
        tensor(
            "blk.{i}.ffn_norm.weight"@,
            "Pre-FFN LayerNorm scale (Falcon-2 / sequential mode)"@,
            false,
        ),
        tensor(
            "blk.{i}.ffn_norm.bias"@,
            "Pre-FFN LayerNorm bias (Falcon-2 / sequential mode)"@,
            false,
        ),
        tensor("blk.{i}.attn_qkv.weight"@, "Fused QKV projection weight"@, true),
        tensor("blk.{i}.attn_qkv.bias"@, "Fused QKV projection bias"@, false),
        tensor("blk.{i}.attn_output.weight"@, "Attention output projection weight"@, true),
        tensor("blk.{i}.attn_output.bias"@, "Attention output projection bias"@, false),
        tensor("blk.{i}.ffn_up.weight"@, "FFN up-projection weight"@, true),
        tensor("blk.{i}.ffn_up.bias"@, "FFN up-projection bias"@, false),
        tensor("blk.{i}.ffn_down.weight"@, "FFN down-projection weight"@, true),
        tensor("blk.{i}.ffn_down.bias"@, "FFN down-projection bias"@, false),
    ]
}

/// Lists the tensors of the family.
pub fn falcon_tensor_name_patterns() -> (v: Vec<TensorNamePattern>)
    ensures
        pattern_views(v@) == falcon_patterns(),
{
    let mut v = no_patterns();
    add_pattern(
        &mut v,
        "token_embd.weight",
        "Token embedding matrix [vocab_size, hidden_size]",
        true,
    );
    add_pattern(&mut v, "output_norm.weight", "Final LayerNorm scale weights", true);
    add_pattern(&mut v, "output_norm.bias", "Final LayerNorm bias", false);
    add_pattern(
        &mut v,
        "output.weight",
        "LM head / unembedding matrix [vocab_size, hidden_size]",
        true,
    );
    add_pattern(&mut v, "blk.{i}.attn_norm.weight", "Pre-attention LayerNorm scale", true);
    add_pattern(&mut v, "blk.{i}.attn_norm.bias", "Pre-attention LayerNorm bias", false);
    add_pattern(
        &mut v,
        "blk.{i}.ffn_norm.weight",
        "Pre-FFN LayerNorm scale (Falcon-2 / sequential mode)",
        false,
    );
    add_pattern(
        &mut v,
        "blk.{i}.ffn_norm.bias",
        "Pre-FFN LayerNorm bias (Falcon-2 / sequential mode)",
        false,
    );
    add_pattern(&mut v, "blk.{i}.attn_qkv.weight", "Fused QKV projection weight", true);
    add_pattern(&mut v, "blk.{i}.attn_qkv.bias", "Fused QKV projection bias", false);
    add_pattern(&mut v, "blk.{i}.attn_output.weight", "Attention output projection weight", true);
    add_pattern(&mut v, "blk.{i}.attn_output.bias", "Attention output projection bias", false);
    add_pattern(&mut v, "blk.{i}.ffn_up.weight", "FFN up-projection weight", true);
    add_pattern(&mut v, "blk.{i}.ffn_up.bias", "FFN up-projection bias", false);
    add_pattern(&mut v, "blk.{i}.ffn_down.weight", "FFN down-projection weight", true);
    add_pattern(&mut v, "blk.{i}.ffn_down.bias", "FFN down-projection bias", false);
    v
}

impl ModelArchitecture for FalconArchitecture {
    open spec fn id(&self) -> Seq<char> {
        "falcon"@
    }

    open spec fn tensors(&self) -> Seq<PatternView> {
        falcon_patterns()
    }

    fn arch_id(&self) -> (r: &'static str) {
        "falcon"
    }

    fn tensor_names(&self) -> (v: Vec<TensorNamePattern>) {
        falcon_tensor_name_patterns()
    }
}

/// The hyperparameters of the family. Numbers of type `f32` are patterns.
#[derive(Debug, Clone, Copy, PartialEq, Eq)]
pub struct FalconConfig {
    /// Number of query heads.
    pub n_heads: usize,
    /// Number of key and value heads.
    pub n_kv_heads: usize,
    /// Number of layers.
    pub n_layers: usize,
    /// Size of a hidden state.
    pub hidden_size: usize,
    /// Number of tokens in the vocabulary.
    pub vocab_size: usize,
    /// Inner size of a feed-forward network.
    pub intermediate_size: usize,
    /// Epsilon of the norms.
    pub norm_eps: u32,
    /// Whether attention and feed-forward network work on the same normed state.
    pub parallel_attn: bool,
    /// Whether attention scores get a bias that is linear in the distance.
    pub alibi: bool,
    /// Whether queries and keys are rotated.
    pub rope: bool,
    /// Base frequency of the rotary embedding.
    pub rope_freq_base: u32,
    /// Size of one head.
    pub head_dim: usize,
}

/// A base frequency, or the usual one where it is not positive.
pub open spec fn base_or_default(b: u32) -> u32 {
    if is_positive(b) {
        b
    } else {
        F32_TEN_THOUSAND
    }
}

/// The configuration that follows from the one that all families share. Models
/// whose activation is `gelu` are of the first generation, which has linear
/// biases and parallel networks; others rotate.
pub open spec fn falcon_config_of(c: ModelConfigView) -> FalconConfig {
    let first = c.activation == "gelu"@;
    let heads = at_least_one(c.num_attention_heads);
    let hidden = at_least_one(c.hidden_size);
    FalconConfig {
        n_heads: heads,
        n_kv_heads: at_least_one(c.num_kv_heads),
        n_layers: at_least_one(c.num_layers),
        hidden_size: hidden,
        vocab_size: at_least_one(c.vocab_size),
        intermediate_size: at_least_one(c.intermediate_size),
        norm_eps: at_least_spec(c.rms_norm_eps, F32_1E_MINUS_9),
        parallel_attn: first,
        alibi: first,
        rope: !first,
        rope_freq_base: base_or_default(c.rope_freq_base),
        head_dim: at_least_one(hidden / heads),
    }
}

impl FalconConfig {
    /// Derives the configuration.
    pub fn from_model_config(config: &ModelConfig) -> (r: ArchResult<Self>)
        ensures
            r matches Ok(c) && c == falcon_config_of(config@),
    {
        let n_heads: usize = or_one(config.num_attention_heads);
        let hidden_size: usize = or_one(config.hidden_size);
        let first: bool = same_text(config.activation.as_str(), "gelu");
        let rope_freq_base: u32 = if positive(config.rope_freq_base) {
            config.rope_freq_base
        } else {
            F32_TEN_THOUSAND
        };
        Ok(
            FalconConfig {
                n_heads,
                n_kv_heads: or_one(config.num_kv_heads),
                n_layers: or_one(config.num_layers),
                hidden_size,
                vocab_size: or_one(config.vocab_size),
                intermediate_size: or_one(config.intermediate_size),
                norm_eps: at_least(config.rms_norm_eps, F32_1E_MINUS_9),
                parallel_attn: first,
                alibi: first,
                rope: !first,
                rope_freq_base,
                head_dim: or_one(hidden_size / n_heads),
            },
        )
    }

    /// The heads of a layer.
    pub open spec fn layout(self) -> HeadLayout {
        HeadLayout {
            num_heads: self.n_heads,
            num_kv_heads: self.n_kv_heads,
            head_dim: self.head_dim,
        }
    }
}

/// A derived configuration has either rotated queries and keys or linear
/// biases, never both; networks are parallel where biases are linear; and no
/// size is zero.
pub proof fn law_positions_are_exclusive(c: ModelConfigView)
    ensures
        falcon_config_of(c).rope != falcon_config_of(c).alibi,
        falcon_config_of(c).parallel_attn == falcon_config_of(c).alibi,
        falcon_config_of(c).n_heads > 0,
        falcon_config_of(c).n_kv_heads > 0,
        falcon_config_of(c).n_layers > 0,
        falcon_config_of(c).hidden_size > 0,
        falcon_config_of(c).vocab_size > 0,
        falcon_config_of(c).intermediate_size > 0,
        falcon_config_of(c).head_dim > 0,
        is_positive(falcon_config_of(c).rope_freq_base),
        is_positive(falcon_config_of(c).norm_eps),
{
}

/// The weights of one layer.
#[derive(Debug)]
pub struct FalconLayer {
    /// Norm before attention, and before both networks where they are parallel.
    pub attn_norm: LayerNorm,
    /// Norm before the feed-forward network.
    pub ffn_norm: Option<LayerNorm>,
    /// Projection to query, key and value, in this order.
    pub attn_qkv_weight: QuantTensor,
    /// Bias of that projection.
    pub attn_qkv_bias: Option<Vec<u32>>,
    /// Output projection of attention.
    pub attn_out_weight: QuantTensor,
    /// Bias of that projection.
    pub attn_out_bias: Option<Vec<u32>>,
    /// Up projection.
    pub ffn_up_weight: QuantTensor,
    /// Bias of that projection.
    pub ffn_up_bias: Option<Vec<u32>>,
    /// Down projection.
    pub ffn_down_weight: QuantTensor,
    /// Bias of that projection.
    pub ffn_down_bias: Option<Vec<u32>>,
}

/// How a layer puts attention and feed-forward network together.
#[derive(Debug, Clone, Copy, PartialEq, Eq)]
pub enum FalconMode {
    /// Both work on the same normed state, and both outcomes are added at once.
    Parallel,
    /// The feed-forward network works on the state after attention, normed by
    /// its own norm.
    Sequential,
    /// The feed-forward network works on the state after attention, normed by
    /// the norm of attention.
    SequentialShared,
}

impl FalconMode {
    /// The state that the feed-forward network reads.
    pub open spec fn reads(self) -> NetworkInput {
        if self == FalconMode::Parallel {
            NetworkInput::Entering
        } else {
            NetworkInput::Attended
        }
    }

    /// The state that the feed-forward network reads.
    pub fn network_input(&self) -> (i: NetworkInput)
        ensures
            i == self.reads(),
    {
        match self {
            FalconMode::Parallel => NetworkInput::Entering,
            FalconMode::Sequential => NetworkInput::Attended,
            FalconMode::SequentialShared => NetworkInput::Attended,
        }
    }
}

/// A model.
#[derive(Debug)]
pub struct FalconForward {
    /// The configuration.
    pub cfg: FalconConfig,
    /// The embedding table, one row for each token.
    pub token_embd: Vec<u32>,
    /// The layers.
    pub layers: Vec<FalconLayer>,
    /// Norm before the output projection.
    pub output_norm: LayerNorm,
    /// Output projection, one row for each token.
    pub output_weight: Vec<u32>,
    /// The table of angles, where queries and keys are rotated.
    pub rope_table: Option<RopeTable>,
    /// Greatest number of tokens in a context.
    pub max_context: usize,
}

impl FalconForward {
    /// A model of given weights.
    pub fn new(
        cfg: FalconConfig,
        token_embd: Vec<u32>,
        layers: Vec<FalconLayer>,
        output_norm: LayerNorm,
        output_weight: Vec<u32>,
        max_context_length: usize,
    ) -> (m: Self)
        requires
            cfg.rope ==> max_context_length * (cfg.head_dim / 2) <= usize::MAX,
        ensures
            m.cfg == cfg,
            m.token_embd == token_embd,
            m.layers == layers,
            m.output_norm == output_norm,
            m.output_weight == output_weight,
            m.max_context == max_context_length,
            match m.rope_table {
                Some(t) => cfg.rope && t.is_table(
                    cfg.head_dim,
                    max_context_length as nat,
                    standard(cfg.rope_freq_base),
                ),
                None => !cfg.rope,
            },
    {
        let rope_table: Option<RopeTable> = if cfg.rope {
            Some(
                RopeTable::new_standard(cfg.head_dim, max_context_length, cfg.rope_freq_base),
            )
        } else {
            None
        };
        FalconForward {
            cfg,
            token_embd,
            layers,
            output_norm,
            output_weight,
            rope_table,
            max_context: max_context_length,
        }
    }

    /// Looks up a token.
    pub fn embed_token(&self, token: u32) -> (r: ArchResult<Vec<u32>>)
        ensures
            follows(
                r,
                row_failure(
                    self.token_embd@,
                    self.cfg.hidden_size as nat,
                    self.cfg.vocab_size as nat,
                    token,
                    "token id"@,
                ),
            ),
            r matches Ok(v) ==> v@ == row_of(
                self.token_embd@,
                self.cfg.hidden_size as nat,
                token as nat,
            ),
    {
        embed_token(
            &self.token_embd,
            self.cfg.hidden_size,
            self.cfg.vocab_size,
            token,
            "token id",
        )
    }

    /// Takes the query, the key and the value of a token out of the output of
    /// their projection.
    pub fn project_qkv(&self, fused: &Vec<u32>) -> (r: Qkv)
        requires
            self.cfg.layout().query_size() + 2 * self.cfg.layout().row() <= fused@.len(),
        ensures
            ({
                let l = self.cfg.layout();
                &&& r.query@ == fused@.subrange(0, l.query_size())
                &&& r.key@ == fused@.subrange(l.query_size(), l.query_size() + l.row())
                &&& r.value@ == fused@.subrange(
                    l.query_size() + l.row(),
                    l.query_size() + 2 * l.row(),
                )
            }),
    {
        let layout = HeadLayout {
            num_heads: self.cfg.n_heads,
            num_kv_heads: self.cfg.n_kv_heads,
            head_dim: self.cfg.head_dim,
        };
        layout.split_qkv(fused)
    }

    /// Plans what the heads read when a token attends: all positions up to its
    /// own.
    pub fn attention(&self, position: usize) -> (plan: Vec<CausalReads>)
        requires
            0 < self.cfg.n_kv_heads <= self.cfg.n_heads,
            position < usize::MAX,
            (position + 1) * (self.cfg.n_kv_heads * self.cfg.head_dim) + self.cfg.n_heads
                * self.cfg.head_dim <= usize::MAX,
        ensures
            plan@.len() == self.cfg.n_heads,
            forall|h: int|
                0 <= h < plan@.len() ==> strided_as_planned(
                    #[trigger] plan@[h],
                    self.cfg.n_kv_heads * self.cfg.head_dim,
                    self.cfg.head_dim as int,
                    (self.cfg.n_heads / self.cfg.n_kv_heads) as int,
                    h,
                    position + 1,
                ),
    {
        let group: usize = self.cfg.n_heads / self.cfg.n_kv_heads;
        let ghost row = self.cfg.n_kv_heads * self.cfg.head_dim;
        proof {
            lemma_mul_nonnegative(self.cfg.n_kv_heads as int, self.cfg.head_dim as int);
            lemma_mul_nonnegative(self.cfg.n_heads as int, self.cfg.head_dim as int);
            assert((position + 1) * row >= row) by (nonlinear_arith)
                requires
                    row >= 0,
            ;
            let n = self.cfg.n_heads as int;
            let k = self.cfg.n_kv_heads as int;
            assert(n / k >= 1) by (nonlinear_arith)
                requires
                    0 < k <= n,
            ;
        }
        let stride: usize = self.cfg.n_kv_heads * self.cfg.head_dim;
        plan_strided(self.cfg.n_heads, group, self.cfg.head_dim, stride, position + 1)
    }

    /// How a layer puts attention and feed-forward network together.
    pub fn layer_forward(&self, layer_idx: usize) -> (m: FalconMode)
        requires
            layer_idx < self.layers@.len(),
        ensures
            m == (if self.cfg.parallel_attn {
                FalconMode::Parallel
            } else if self.layers@[layer_idx as int].ffn_norm is Some {
                FalconMode::Sequential
            } else {
                FalconMode::SequentialShared
            }),
    {
        if self.cfg.parallel_attn {
            FalconMode::Parallel
        } else if self.layers[layer_idx].ffn_norm.is_some() {
            FalconMode::Sequential
        } else {
            FalconMode::SequentialShared
        }
    }

    /// Begins a pass over tokens after `cached` others. Tokens are run one by
    /// one, so those before a token that the embedding table has no row for are
    /// run before it is refused.
    pub fn forward(&self, tokens: &Vec<u32>, cached: usize) -> (run: PartialPass)
        requires
            cached + tokens@.len() <= usize::MAX,
        ensures
            ({
                let n = reached_count(
                    self.token_embd@,
                    self.cfg.hidden_size as nat,
                    tokens@,
                );
                &&& run.pass.begins(
                    Order::TokenByToken,
                    self.cfg.n_layers as nat,
                    cached as nat,
                    self.token_embd@,
                    self.cfg.hidden_size as nat,
                    tokens@.take(n as int),
                )
                &&& match run.refusal {
                    None => n == tokens@.len(),
                    Some(e) => n < tokens@.len() && row_failure(
                        self.token_embd@,
                        self.cfg.hidden_size as nat,
                        self.cfg.vocab_size as nat,
                        tokens@[n as int],
                        "token id"@,
                    ) == Some(e@),
                }
            }),
    {
        let reached = embed_reached(
            &self.token_embd,
            self.cfg.hidden_size,
            self.cfg.vocab_size,
            tokens,
            "token id",
        );
        proof {
            lemma_reached_count(self.token_embd@, self.cfg.hidden_size as nat, tokens@);
        }
        let shape = PassShape {
            order: Order::TokenByToken,
            layers: self.cfg.n_layers,
            tokens: reached.count,
            start: cached,
        };
        PartialPass { pass: Pass { shape, states: reached.rows }, refusal: reached.refusal }
    }

    /// Where the rows of the output projection begin, one for each logit.
    pub fn logit_rows(&self) -> (rows: Vec<usize>)
        requires
            self.cfg.vocab_size * self.cfg.hidden_size <= self.output_weight@.len(),
        ensures
            rows@.len() == self.cfg.vocab_size,
            forall|v: int|
                0 <= v < rows@.len() ==> {
                    &&& #[trigger] rows@[v] == v * self.cfg.hidden_size
                    &&& rows@[v] + self.cfg.hidden_size <= self.output_weight@.len()
                },
    {
        row_starts(self.cfg.vocab_size, self.cfg.hidden_size, self.output_weight.len())
    }

    /// Number of tokens in the vocabulary: the length of the logits.
    pub fn vocab_size(&self) -> (n: usize)
        ensures
            n == self.cfg.vocab_size,
    {
        self.cfg.vocab_size
    }

    /// Greatest number of tokens in a context.
    pub fn max_context_length(&self) -> (n: usize)
        ensures
            n == self.max_context,
    {
        self.max_context
    }

    /// Size of a hidden state.
    pub fn hidden_size(&self) -> (n: usize)
        ensures
            n == self.cfg.hidden_size,
    {
        self.cfg.hidden_size
    }
}

/// Heads read what the heads of a LLaMA model of the same sizes read: query head
/// `h` uses the key and value head of its group at every cached position.
pub proof fn law_attends_as_llama(
    model: FalconForward,
    plan: Seq<CausalReads>,
    llama: Seq<CausalReads>,
    position: int,
)
    requires
        0 < model.cfg.n_kv_heads <= model.cfg.n_heads,
        plan.len() == model.cfg.n_heads,
        forall|h: int|
            0 <= h < plan.len() ==> strided_as_planned(
                #[trigger] plan[h],
                model.cfg.n_kv_heads * model.cfg.head_dim,
                model.cfg.head_dim as int,
                (model.cfg.n_heads / model.cfg.n_kv_heads) as int,
                h,
                position + 1,
            ),
        attends(llama, model.cfg.layout(), position, None),
    ensures
        attends(plan, model.cfg.layout(), position, None),
        same_reads(plan, llama),
{
    let n = model.cfg.n_heads as int;
    let k = model.cfg.n_kv_heads as int;
    assert(n / k >= 1) by (nonlinear_arith)
        requires
            0 < k <= n,
    ;
    law_strided_plans_are_grouped(plan, model.cfg.layout(), position);
    law_attention_plans_are_unique(plan, llama, model.cfg.layout(), position, None);
}

/// A derived configuration keeps the sizes that are not zero, and has one in place
/// of the others. Its epsilon is at least `1e-9`, and its base frequency is
/// positive. Models whose activation is `gelu` have linear biases and parallel
/// networks, and others rotate.
pub proof fn law_sizes_are_kept(c: ModelConfigView)
    ensures
        c.num_attention_heads > 0 ==> falcon_config_of(c).n_heads == c.num_attention_heads,
        c.num_attention_heads == 0 ==> falcon_config_of(c).n_heads == 1,
        c.num_kv_heads > 0 ==> falcon_config_of(c).n_kv_heads == c.num_kv_heads,
        c.num_kv_heads == 0 ==> falcon_config_of(c).n_kv_heads == 1,
        c.num_layers > 0 ==> falcon_config_of(c).n_layers == c.num_layers,
        c.num_layers == 0 ==> falcon_config_of(c).n_layers == 1,
        c.hidden_size > 0 ==> falcon_config_of(c).hidden_size == c.hidden_size,
        c.hidden_size == 0 ==> falcon_config_of(c).hidden_size == 1,
        c.vocab_size > 0 ==> falcon_config_of(c).vocab_size == c.vocab_size,
        c.vocab_size == 0 ==> falcon_config_of(c).vocab_size == 1,
        c.intermediate_size > 0 ==> falcon_config_of(c).intermediate_size == c.intermediate_size,
        c.intermediate_size == 0 ==> falcon_config_of(c).intermediate_size == 1,
        0 < c.rope_freq_base <= 0x7F80_0000
            ==> falcon_config_of(c).rope_freq_base == c.rope_freq_base,
        !(0 < c.rope_freq_base <= 0x7F80_0000)
            ==> falcon_config_of(c).rope_freq_base == 0x461C_4000,
        0x3089_705F < c.rms_norm_eps <= 0x7F80_0000
            ==> falcon_config_of(c).norm_eps == c.rms_norm_eps,
        !(0x3089_705F < c.rms_norm_eps <= 0x7F80_0000)
            ==> falcon_config_of(c).norm_eps == 0x3089_705F,
        falcon_config_of(c).hidden_size / falcon_config_of(c).n_heads > 0
            ==> falcon_config_of(c).head_dim
            == falcon_config_of(c).hidden_size / falcon_config_of(c).n_heads,
        falcon_config_of(c).hidden_size / falcon_config_of(c).n_heads == 0
            ==> falcon_config_of(c).head_dim == 1,
        c.activation == "gelu"@
            ==> falcon_config_of(c).parallel_attn && falcon_config_of(c).alibi
            && !falcon_config_of(c).rope,
        c.activation != "gelu"@
            ==> !falcon_config_of(c).parallel_attn && !falcon_config_of(c).alibi
            && falcon_config_of(c).rope,
{
}

/// A parallel feed-forward network reads the state that entered the layer, and any
/// other the state after attention.
pub proof fn law_parallel_networks_read_entering_state(mode: FalconMode)
    ensures
        mode.reads() == NetworkInput::Entering <==> mode is Parallel,
        mode.reads() == NetworkInput::Attended <==> mode is Sequential || mode is SequentialShared,
{
}

/// The family names its tensors in this order, says which of them a model cannot do
/// without, and describes each.
pub proof fn law_tensors_are_named_in_order(a: FalconArchitecture)
    ensures
        a.id() == "falcon"@,
        a.tensors() == falcon_patterns(),
        falcon_patterns().len() == 16,
        falcon_patterns()[0].pattern == "token_embd.weight"@ && falcon_patterns()[0].required,
        falcon_patterns()[1].pattern == "output_norm.weight"@ && falcon_patterns()[1].required,
        falcon_patterns()[2].pattern == "output_norm.bias"@ && !falcon_patterns()[2].required,
        falcon_patterns()[3].pattern == "output.weight"@ && falcon_patterns()[3].required,
        falcon_patterns()[4].pattern == "blk.{i}.attn_norm.weight"@
            && falcon_patterns()[4].required,
        falcon_patterns()[5].pattern == "blk.{i}.attn_norm.bias"@ && !falcon_patterns()[5].required,
        falcon_patterns()[6].pattern == "blk.{i}.ffn_norm.weight"@
            && !falcon_patterns()[6].required,
        falcon_patterns()[7].pattern == "blk.{i}.ffn_norm.bias"@ && !falcon_patterns()[7].required,
        falcon_patterns()[8].pattern == "blk.{i}.attn_qkv.weight"@ && falcon_patterns()[8].required,
        falcon_patterns()[9].pattern == "blk.{i}.attn_qkv.bias"@ && !falcon_patterns()[9].required,
        falcon_patterns()[10].pattern == "blk.{i}.attn_output.weight"@
            && falcon_patterns()[10].required,
        falcon_patterns()[11].pattern == "blk.{i}.attn_output.bias"@
            && !falcon_patterns()[11].required,
        falcon_patterns()[12].pattern == "blk.{i}.ffn_up.weight"@ && falcon_patterns()[12].required,
        falcon_patterns()[13].pattern == "blk.{i}.ffn_up.bias"@ && !falcon_patterns()[13].required,
        falcon_patterns()[14].pattern == "blk.{i}.ffn_down.weight"@
            && falcon_patterns()[14].required,
        falcon_patterns()[15].pattern == "blk.{i}.ffn_down.bias"@
            && !falcon_patterns()[15].required,
        falcon_patterns()[0].description == "Token embedding matrix [vocab_size, hidden_size]"@,
        falcon_patterns()[1].description == "Final LayerNorm scale weights"@,
        falcon_patterns()[2].description == "Final LayerNorm bias"@,
        falcon_patterns()[3].description
            == "LM head / unembedding matrix [vocab_size, hidden_size]"@,
        falcon_patterns()[4].description == "Pre-attention LayerNorm scale"@,
        falcon_patterns()[5].description == "Pre-attention LayerNorm bias"@,
        falcon_patterns()[6].description == "Pre-FFN LayerNorm scale (Falcon-2 / sequential mode)"@,
        falcon_patterns()[7].description == "Pre-FFN LayerNorm bias (Falcon-2 / sequential mode)"@,
        falcon_patterns()[8].description == "Fused QKV projection weight"@,
        falcon_patterns()[9].description == "Fused QKV projection bias"@,
        falcon_patterns()[10].description == "Attention output projection weight"@,
        falcon_patterns()[11].description == "Attention output projection bias"@,
        falcon_patterns()[12].description == "FFN up-projection weight"@,
        falcon_patterns()[13].description == "FFN up-projection bias"@,
        falcon_patterns()[14].description == "FFN down-projection weight"@,
        falcon_patterns()[15].description == "FFN down-projection bias"@,
{
}

/// A configuration gives a layer its own numbers of heads and its head size.
pub proof fn law_layout_follows_configuration(c: FalconConfig)
    ensures
        c.layout().num_heads == c.n_heads,
        c.layout().num_kv_heads == c.n_kv_heads,
        c.layout().head_dim == c.head_dim,
{
}

} // verus!
