//! MiniCPM: a decoder with scaled embeddings.

use crate::bits::{at_least, at_least_spec, is_positive, positive, F32_1E_MINUS_9, F32_TEN_THOUSAND};
use crate::common::embedding::{embed_token, last_token_failure, row_failure, row_of};
use crate::common::heads::{
    attends, gqa_ratio, group_of, law_attention_plans_are_unique, law_strided_plans_are_grouped,
    plan_strided, same_reads, strided_as_planned, CausalReads, HeadLayout,
};
use crate::common::linear::QuantTensor;
use crate::common::norm::RmsNorm;
use crate::common::pass::{
    begin_last_token, law_pass_reaches_every_stage, law_tokens_end_in_order, Order, Pass, Stage,
};
use crate::common::rope::{standard, RopeTable};
use crate::common::sizes::row_starts;
use crate::config::{at_least_one, or_one, ModelConfig, ModelConfigView};
use crate::error::{follows, ArchResult};
use crate::gguf::TensorStore;
use crate::traits::{
    add_pattern, build_refusal, no_patterns, pattern_views, refuse_build, tensor, ModelArchitecture,
    PatternView, TensorNamePattern,
};
use vstd::arithmetic::mul::lemma_mul_nonnegative;
use vstd::prelude::*;

verus! {

/// The family of models with the identifier `minicpm`.
#[derive(Debug, Clone, Copy)]
pub struct MiniCpmArchitecture;

impl MiniCpmArchitecture {
    /// The family.
    pub fn new() -> (a: Self)
        ensures
            a == MiniCpmArchitecture,
    {
        MiniCpmArchitecture
    }

    /// Answers a request to build a model from its tensors' names: the tensors'
    /// data can only be had from a file, so every request is refused.
    pub fn build(&self, config: &ModelConfig, _tensors: &TensorStore) -> (r: ArchResult<()>)
        ensures
            r matches Err(e) && e@ == build_refusal(
                config@,
                "token_embd.weight (use MiniCpmForward::new for full loading)"@,
            ),
    {
        refuse_build(
            config,
            "token_embd.weight (use MiniCpmForward::new for full loading)",
        )
    }
}

impl Default for MiniCpmArchitecture {
    fn default() -> (a: Self)
        ensures
            a == MiniCpmArchitecture,
    {
        MiniCpmArchitecture
    }
}

/// The tensors of the family.
pub open spec fn minicpm_patterns() -> Seq<PatternView> {
    seq![
        tensor("token_embd.weight"@, "Token embedding"@, true),
        tensor("blk.{i}.attn_norm.weight"@, "Pre-attention RMSNorm"@, true),
        tensor("blk.{i}.ffn_norm.weight"@, "Pre-FFN RMSNorm"@, true),
        tensor("blk.{i}.attn_q.weight"@, "Query projection"@, true),
        tensor("blk.{i}.attn_k.weight"@, "Key projection"@, true),
        tensor("blk.{i}.attn_v.weight"@, "Value projection"@, true),
        tensor("blk.{i}.attn_output.weight"@, "Attention output projection"@, true),
        tensor("blk.{i}.ffn_gate.weight"@, "FFN gate projection (SwiGLU)"@, true),
        tensor("blk.{i}.ffn_up.weight"@, "FFN up projection"@, true),
        tensor("blk.{i}.ffn_down.weight"@, "FFN down projection"@, true),
        tensor("output_norm.weight"@, "Final RMSNorm"@, true),
        tensor("output.weight"@, "LM head"@, true),
    ]
}

/// Lists the tensors of the family.
pub fn minicpm_tensor_name_patterns() -> (v: Vec<TensorNamePattern>)
    ensures
        pattern_views(v@) == minicpm_patterns(),
{
    let mut v = no_patterns();
    add_pattern(&mut v, "token_embd.weight", "Token embedding", true);
    add_pattern(&mut v, "blk.{i}.attn_norm.weight", "Pre-attention RMSNorm", true);
    add_pattern(&mut v, "blk.{i}.ffn_norm.weight", "Pre-FFN RMSNorm", true);
    add_pattern(&mut v, "blk.{i}.attn_q.weight", "Query projection", true);
    add_pattern(&mut v, "blk.{i}.attn_k.weight", "Key projection", true);
    add_pattern(&mut v, "blk.{i}.attn_v.weight", "Value projection", true);
    add_pattern(&mut v, "blk.{i}.attn_output.weight", "Attention output projection", true);
    add_pattern(&mut v, "blk.{i}.ffn_gate.weight", "FFN gate projection (SwiGLU)", true);
    add_pattern(&mut v, "blk.{i}.ffn_up.weight", "FFN up projection", true);
    add_pattern(&mut v, "blk.{i}.ffn_down.weight", "FFN down projection", true);
    add_pattern(&mut v, "output_norm.weight", "Final RMSNorm", true);
    add_pattern(&mut v, "output.weight", "LM head", true);
    v
}

impl ModelArchitecture for MiniCpmArchitecture {
    open spec fn id(&self) -> Seq<char> {
        "minicpm"@
    }

    open spec fn tensors(&self) -> Seq<PatternView> {
        minicpm_patterns()
    }

    fn arch_id(&self) -> (r: &'static str) {
        "minicpm"
    }

    fn tensor_names(&self) -> (v: Vec<TensorNamePattern>) {
        minicpm_tensor_name_patterns()
    }
}

/// A quotient of sizes that is multiplied with.
#[derive(Debug, Clone, Copy, PartialEq, Eq)]
pub struct Ratio {
    /// The dividend.
    pub numerator: usize,
    /// The divisor.
    pub denominator: usize,
}

/// The hyperparameters of the family. Numbers of type `f32` are patterns.
#[derive(Debug, Clone, Copy, PartialEq, Eq)]
pub struct MiniCpmConfig {
    /// Number of layers.
    pub n_layers: usize,
    /// Size of a hidden state.
    pub hidden_size: usize,
    /// Number of query heads.
    pub n_heads: usize,
    /// Number of key and value heads.
    pub n_kv_heads: usize,
    /// Inner size of a feed-forward network.
    pub intermediate_size: usize,
    /// Number of tokens in the vocabulary.
    pub vocab_size: usize,
    /// Greatest number of tokens in a context.
    pub max_context_length: usize,
    /// Epsilon of the norms.
    pub norm_eps: u32,
    /// Base frequency of the rotary embedding.
    pub rope_freq_base: u32,
    /// Size of one head.
    pub head_dim: usize,
    /// The size that the embedding scale is relative to.
    pub dim_model_base: usize,
    /// Scale of the embeddings: the hidden size over the base size.
    pub embedding_scale: Ratio,
}

/// The configuration that follows from the one that all families share, with an
/// embedding scale of one.
pub open spec fn minicpm_config_of(c: ModelConfigView) -> MiniCpmConfig {
    let heads = at_least_one(c.num_attention_heads);
    let hidden = at_least_one(c.hidden_size);
    MiniCpmConfig {
        n_layers: at_least_one(c.num_layers),
        hidden_size: hidden,
        n_heads: heads,
        n_kv_heads: at_least_one(c.num_kv_heads),
        intermediate_size: at_least_one(c.intermediate_size),
        vocab_size: at_least_one(c.vocab_size),
        max_context_length: at_least_one(c.max_context_length),
        norm_eps: at_least_spec(c.rms_norm_eps, F32_1E_MINUS_9),
        rope_freq_base: if is_positive(c.rope_freq_base) {
            c.rope_freq_base
        } else {
            F32_TEN_THOUSAND
        },
        head_dim: at_least_one(hidden / heads),
        dim_model_base: hidden,
        embedding_scale: Ratio { numerator: hidden, denominator: hidden },
    }
}

impl MiniCpmConfig {
    /// The heads of a layer.
    pub open spec fn layout(self) -> HeadLayout {
        HeadLayout {
            num_heads: self.n_heads,
            num_kv_heads: self.n_kv_heads,
            head_dim: self.head_dim,
        }
    }

    /// Derives the configuration.
    pub fn from_model_config(config: &ModelConfig) -> (r: ArchResult<Self>)
        ensures
            r matches Ok(c) && c == minicpm_config_of(config@),
    {
        let n_heads: usize = or_one(config.num_attention_heads);
        let hidden_size: usize = or_one(config.hidden_size);
        let rope_freq_base: u32 = if positive(config.rope_freq_base) {
            config.rope_freq_base
        } else {
            F32_TEN_THOUSAND
        };
        Ok(
            MiniCpmConfig {
                n_layers: or_one(config.num_layers),
                hidden_size,
                n_heads,
                n_kv_heads: or_one(config.num_kv_heads),
                intermediate_size: or_one(config.intermediate_size),
                vocab_size: or_one(config.vocab_size),
                max_context_length: or_one(config.max_context_length),
                norm_eps: at_least(config.rms_norm_eps, F32_1E_MINUS_9),
                rope_freq_base,
                head_dim: or_one(hidden_size / n_heads),
                dim_model_base: hidden_size,
                embedding_scale: Ratio { numerator: hidden_size, denominator: hidden_size },
            },
        )
    }

    /// The same configuration, with an embedding scale relative to a base size.
    /// A base size of zero counts as one.
    pub fn with_dim_model_base(self, dim_model_base: usize) -> (c: Self)
        ensures
            c.same_but_scale(self),
            c.dim_model_base == at_least_one(dim_model_base),
            c.embedding_scale == (Ratio {
                numerator: self.hidden_size,
                denominator: at_least_one(dim_model_base),
            }),
    {
        let base: usize = or_one(dim_model_base);
        MiniCpmConfig {
            n_layers: self.n_layers,
            hidden_size: self.hidden_size,
            n_heads: self.n_heads,
            n_kv_heads: self.n_kv_heads,
            intermediate_size: self.intermediate_size,
            vocab_size: self.vocab_size,
            max_context_length: self.max_context_length,
            norm_eps: self.norm_eps,
            rope_freq_base: self.rope_freq_base,
            head_dim: self.head_dim,
            dim_model_base: base,
            embedding_scale: Ratio { numerator: self.hidden_size, denominator: base },
        }
    }

    /// Whether only the embedding scale may differ from another configuration.
    pub open spec fn same_but_scale(self, other: MiniCpmConfig) -> bool {
        &&& self.n_layers == other.n_layers
        &&& self.hidden_size == other.hidden_size
        &&& self.n_heads == other.n_heads
        &&& self.n_kv_heads == other.n_kv_heads
        &&& self.intermediate_size == other.intermediate_size
        &&& self.vocab_size == other.vocab_size
        &&& self.max_context_length == other.max_context_length
        &&& self.norm_eps == other.norm_eps
        &&& self.rope_freq_base == other.rope_freq_base
        &&& self.head_dim == other.head_dim
    }
}

/// The scale of a derived configuration is the hidden size over the base size,
/// and never divides by zero, before and after a base size is set.
pub proof fn law_scale_is_relative(c: ModelConfigView, base: usize, set: MiniCpmConfig)
    requires
        set.same_but_scale(minicpm_config_of(c)),
        set.embedding_scale == (Ratio {
            numerator: set.hidden_size,
            denominator: at_least_one(base),
        }),
    ensures
        minicpm_config_of(c).embedding_scale.numerator == minicpm_config_of(
            c,
        ).embedding_scale.denominator,
        minicpm_config_of(c).embedding_scale.denominator > 0,
        set.embedding_scale.denominator > 0,
        base == minicpm_config_of(c).hidden_size ==> set.embedding_scale == minicpm_config_of(
            c,
        ).embedding_scale,
{
}

/// The weights of one layer.
#[derive(Debug)]
pub struct MiniCpmLayer {
    /// Norm before attention.
    pub attn_norm: RmsNorm,
    /// Norm before the feed-forward network.
    pub ffn_norm: RmsNorm,
    /// Query projection.
    pub attn_q: QuantTensor,
    /// Key projection.
    pub attn_k: QuantTensor,
    /// Value projection.
    pub attn_v: QuantTensor,
    /// Output projection of attention.
    pub attn_out: QuantTensor,
    /// Gate projection.
    pub ffn_gate: QuantTensor,
    /// Up projection.
    pub ffn_up: QuantTensor,
    /// Down projection.
    pub ffn_down: QuantTensor,
}

/// A model.
#[derive(Debug)]
pub struct MiniCpmForward {
    /// The configuration.
    pub cfg: MiniCpmConfig,
    /// The embedding table, one row for each token.
    pub token_embd: Vec<u32>,
    /// The layers.
    pub layers: Vec<MiniCpmLayer>,
    /// Norm before the output projection.
    pub output_norm: RmsNorm,
    /// Output projection, one row for each token.
    pub output_weight: Vec<u32>,
    /// The table of angles.
    pub rope_table: RopeTable,
}

impl MiniCpmForward {
    /// A model of given weights.
    pub fn new(
        cfg: MiniCpmConfig,
        token_embd: Vec<u32>,
        layers: Vec<MiniCpmLayer>,
        output_norm: RmsNorm,
        output_weight: Vec<u32>,
        max_context_length: usize,
    ) -> (m: Self)
        requires
            max_context_length * (cfg.head_dim / 2) <= usize::MAX,
        ensures
            m.cfg == cfg,
            m.token_embd == token_embd,
            m.layers == layers,
            m.output_norm == output_norm,
            m.output_weight == output_weight,
            m.rope_table.is_table(
                cfg.head_dim,
                max_context_length as nat,
                standard(cfg.rope_freq_base),
            ),
    {
        let rope_table = RopeTable::new_standard(
            cfg.head_dim,
            max_context_length,
            cfg.rope_freq_base,
        );
        MiniCpmForward { cfg, token_embd, layers, output_norm, output_weight, rope_table }
    }

    /// Looks up a token.
    pub fn embed_token(&self, token: u32) -> (r: ArchResult<Vec<u32>>)
        ensures
            follows(
                r,
                row_failure(
                    self.token_embd@,
                    self.cfg.hidden_size as nat,
                    self.cfg.vocab_size as nat,
                    token,
                    "token_id"@,
                ),
            ),
            r matches Ok(v) ==> v@ == row_of(
                self.token_embd@,
                self.cfg.hidden_size as nat,
                token as nat,
            ),
    {
        embed_token(
            &self.token_embd,
            self.cfg.hidden_size,
            self.cfg.vocab_size,
            token,
            "token_id",
        )
    }

    /// Plans what the heads read when a token attends after `cached` others: the
    /// positions of all of them and its own.
    pub fn run_attention(&self, cached: usize) -> (plan: Vec<CausalReads>)
        requires
            cached < usize::MAX,
            (cached + 1) * (self.cfg.n_kv_heads * self.cfg.head_dim) + self.cfg.n_heads
                * self.cfg.head_dim <= usize::MAX,
        ensures
            plan@.len() == self.cfg.n_heads,
            forall|h: int|
                0 <= h < plan@.len() ==> strided_as_planned(
                    #[trigger] plan@[h],
                    self.cfg.n_kv_heads * self.cfg.head_dim,
                    self.cfg.head_dim as int,
                    self.group(),
                    h,
                    cached + 1,
                ),
    {
        let group: usize = gqa_ratio(self.cfg.n_heads, self.cfg.n_kv_heads);
        let ghost row = self.cfg.n_kv_heads * self.cfg.head_dim;
        proof {
            lemma_mul_nonnegative(self.cfg.n_kv_heads as int, self.cfg.head_dim as int);
            lemma_mul_nonnegative(self.cfg.n_heads as int, self.cfg.head_dim as int);
            assert((cached + 1) * row >= row) by (nonlinear_arith)
                requires
                    row >= 0,
            ;
        }
        let stride: usize = self.cfg.n_kv_heads * self.cfg.head_dim;
        plan_strided(self.cfg.n_heads, group, self.cfg.head_dim, stride, cached + 1)
    }

    /// Query heads that share one key and value head, and at least 1.
    pub open spec fn group(&self) -> int {
        let g = group_of(self.cfg.n_heads as nat, self.cfg.n_kv_heads as nat);
        if g == 0 {
            1
        } else {
            g as int
        }
    }

    /// Begins a pass over the last of a sequence of tokens, after `cached`
    /// others.
    pub fn run_layers(&self, tokens: &Vec<u32>, cached: usize) -> (r: ArchResult<Pass>)
        requires
            cached < usize::MAX,
        ensures
            follows(
                r,
                last_token_failure(
                    self.token_embd@,
                    self.cfg.hidden_size as nat,
                    self.cfg.vocab_size as nat,
                    tokens@,
                    "token_id"@,
                ),
            ),
            r matches Ok(p) ==> p.begins(
                Order::TokenByToken,
                self.cfg.n_layers as nat,
                cached as nat,
                self.token_embd@,
                self.cfg.hidden_size as nat,
                seq![tokens@.last()],
            ),
    {
        begin_last_token(
            &self.token_embd,
            self.cfg.hidden_size,
            self.cfg.vocab_size,
            tokens,
            self.cfg.n_layers,
            cached,
        )
    }

    /// Begins a pass for the logits after the last token, which is the only one run.
    pub fn forward(&self, tokens: &Vec<u32>, cached: usize) -> (r: ArchResult<Pass>)
        requires
            cached < usize::MAX,
        ensures
            follows(
                r,
                last_token_failure(
                    self.token_embd@,
                    self.cfg.hidden_size as nat,
                    self.cfg.vocab_size as nat,
                    tokens@,
                    "token_id"@,
                ),
            ),
            r matches Ok(p) ==> p.begins(
                Order::TokenByToken,
                self.cfg.n_layers as nat,
                cached as nat,
                self.token_embd@,
                self.cfg.hidden_size as nat,
                seq![tokens@.last()],
            ),
    {
        self.run_layers(tokens, cached)
    }

    /// Begins a pass for the embedding of the last token, which is the only one run.
    pub fn embed(&self, tokens: &Vec<u32>, cached: usize) -> (r: ArchResult<Pass>)
        requires
            cached < usize::MAX,
        ensures
            follows(
                r,
                last_token_failure(
                    self.token_embd@,
                    self.cfg.hidden_size as nat,
                    self.cfg.vocab_size as nat,
                    tokens@,
                    "token_id"@,
                ),
            ),
            r matches Ok(p) ==> p.begins(
                Order::TokenByToken,
                self.cfg.n_layers as nat,
                cached as nat,
                self.token_embd@,
                self.cfg.hidden_size as nat,
                seq![tokens@.last()],
            ),
    {
        self.run_layers(tokens, cached)
    }

    /// Where the rows of the output projection begin, one for each logit.
    pub fn logit_rows(&self) -> (rows: Vec<usize>)
        requires
            self.cfg.vocab_size * self.cfg.hidden_size <= self.output_weight@.len(),
        ensures
            rows@.len() == self.cfg.vocab_size,
            forall|v: int|
                0 <= v < rows@.len() ==> {
                    &&& #[trigger] rows@[v] == v * self.cfg.hidden_size
                    &&& rows@[v] + self.cfg.hidden_size <= self.output_weight@.len()
                },
    {
        row_starts(self.cfg.vocab_size, self.cfg.hidden_size, self.output_weight.len())
    }

    /// Number of tokens in the vocabulary: the length of the logits.
    pub fn vocab_size(&self) -> (n: usize)
        ensures
            n == self.cfg.vocab_size,
    {
        self.cfg.vocab_size
    }

    /// Greatest number of tokens in a context.
    pub fn max_context_length(&self) -> (n: usize)
        ensures
            n == self.cfg.max_context_length,
    {
        self.cfg.max_context_length
    }

    /// Size of a hidden state: the length of an embedding.
    pub fn hidden_size(&self) -> (n: usize)
        ensures
            n == self.cfg.hidden_size,
    {
        self.cfg.hidden_size
    }
}

/// Heads read what the heads of a LLaMA model of the same sizes read: query head
/// `h` uses the key and value head of its group at every cached position.
pub proof fn law_attends_as_llama(
    model: MiniCpmForward,
    plan: Seq<CausalReads>,
    llama: Seq<CausalReads>,
    cached: int,
)
    requires
        0 < model.cfg.n_kv_heads <= model.cfg.n_heads,
        plan.len() == model.cfg.n_heads,
        forall|h: int|
            0 <= h < plan.len() ==> strided_as_planned(
                #[trigger] plan[h],
                model.cfg.n_kv_heads * model.cfg.head_dim,
                model.cfg.head_dim as int,
                model.group(),
                h,
                cached + 1,
            ),
        attends(llama, model.cfg.layout(), cached, None),
    ensures
        attends(plan, model.cfg.layout(), cached, None),
        same_reads(plan, llama),
{
    let n = model.cfg.n_heads as int;
    let k = model.cfg.n_kv_heads as int;
    assert(n / k >= 1) by (nonlinear_arith)
        requires
            0 < k <= n,
    ;
    law_strided_plans_are_grouped(plan, model.cfg.layout(), cached);
    law_attention_plans_are_unique(plan, llama, model.cfg.layout(), cached, None);
}

/// Tokens before the last make no difference: a sequence is refused where its last
/// token alone is, for the same reason, and otherwise begins the pass of the last
/// token alone. That pass attends once in each layer, at the same position, and ends
/// one token.
pub proof fn law_forward_runs_last_token(
    model: MiniCpmForward,
    tokens: Seq<u32>,
    cached: nat,
    all: Pass,
    alone: Pass,
    layer: int,
)
    requires
        tokens.len() > 0,
        all.begins(
            Order::TokenByToken,
            model.cfg.n_layers as nat,
            cached,
            model.token_embd@,
            model.cfg.hidden_size as nat,
            seq![tokens.last()],
        ),
        alone.begins(
            Order::TokenByToken,
            model.cfg.n_layers as nat,
            cached,
            model.token_embd@,
            model.cfg.hidden_size as nat,
            seq![seq![tokens.last()].last()],
        ),
    ensures
        last_token_failure(
            model.token_embd@,
            model.cfg.hidden_size as nat,
            model.cfg.vocab_size as nat,
            tokens,
            "token_id"@,
        ) == last_token_failure(
            model.token_embd@,
            model.cfg.hidden_size as nat,
            model.cfg.vocab_size as nat,
            seq![tokens.last()],
            "token_id"@,
        ),
        all.shape == alone.shape,
        all.states@ == alone.states@,
        0 <= layer < model.cfg.n_layers ==> all.shape.nth((2 * layer) as nat) == (Stage::Attend {
            layer: layer as usize,
            token: 0,
            position: cached as usize,
        }),
        all.shape.length() == 2 * model.cfg.n_layers,
        all.shape.ended(all.shape.length() as nat) == 1,
{
    assert(0 * model.cfg.n_layers == 0) by (nonlinear_arith);
    if 0 <= layer < model.cfg.n_layers {
        let s = Stage::Attend { layer: layer as usize, token: 0, position: cached as usize };
        law_pass_reaches_every_stage(all.shape, s, (2 * layer) as nat);
    }
    if model.cfg.n_layers > 0 {
        law_tokens_end_in_order(all.shape, 0);
    }
}

/// A derived configuration keeps the sizes that are not zero, and has one in place
/// of the others. Its epsilon is at least `1e-9`, and its base frequency is
/// positive. Its embedding scale is one.
pub proof fn law_sizes_are_kept(c: ModelConfigView)
    ensures
        c.num_attention_heads > 0 ==> minicpm_config_of(c).n_heads == c.num_attention_heads,
        c.num_attention_heads == 0 ==> minicpm_config_of(c).n_heads == 1,
        c.num_kv_heads > 0 ==> minicpm_config_of(c).n_kv_heads == c.num_kv_heads,
        c.num_kv_heads == 0 ==> minicpm_config_of(c).n_kv_heads == 1,
        c.num_layers > 0 ==> minicpm_config_of(c).n_layers == c.num_layers,
        c.num_layers == 0 ==> minicpm_config_of(c).n_layers == 1,
        c.hidden_size > 0 ==> minicpm_config_of(c).hidden_size == c.hidden_size,
        c.hidden_size == 0 ==> minicpm_config_of(c).hidden_size == 1,
        c.vocab_size > 0 ==> minicpm_config_of(c).vocab_size == c.vocab_size,
        c.vocab_size == 0 ==> minicpm_config_of(c).vocab_size == 1,
        c.intermediate_size > 0 ==> minicpm_config_of(c).intermediate_size == c.intermediate_size,
        c.intermediate_size == 0 ==> minicpm_config_of(c).intermediate_size == 1,
        0 < c.rope_freq_base <= 0x7F80_0000
            ==> minicpm_config_of(c).rope_freq_base == c.rope_freq_base,
        !(0 < c.rope_freq_base <= 0x7F80_0000)
            ==> minicpm_config_of(c).rope_freq_base == 0x461C_4000,
        0x3089_705F < c.rms_norm_eps <= 0x7F80_0000
            ==> minicpm_config_of(c).norm_eps == c.rms_norm_eps,
        !(0x3089_705F < c.rms_norm_eps <= 0x7F80_0000)
            ==> minicpm_config_of(c).norm_eps == 0x3089_705F,
        minicpm_config_of(c).hidden_size / minicpm_config_of(c).n_heads > 0
            ==> minicpm_config_of(c).head_dim
            == minicpm_config_of(c).hidden_size / minicpm_config_of(c).n_heads,
        minicpm_config_of(c).hidden_size / minicpm_config_of(c).n_heads == 0
            ==> minicpm_config_of(c).head_dim == 1,
        c.max_context_length > 0
            ==> minicpm_config_of(c).max_context_length == c.max_context_length,
        c.max_context_length == 0 ==> minicpm_config_of(c).max_context_length == 1,
        minicpm_config_of(c).dim_model_base == minicpm_config_of(c).hidden_size,
        minicpm_config_of(c).embedding_scale.numerator == minicpm_config_of(c).hidden_size,
        minicpm_config_of(c).embedding_scale.denominator == minicpm_config_of(c).hidden_size,
{
}

/// Query heads share key and value heads by even groups, and each has one of its
/// own where there are more key and value heads than query heads.
pub proof fn law_heads_are_grouped_evenly(m: MiniCpmForward)
    requires
        m.cfg.n_kv_heads > 0,
    ensures
        m.cfg.n_heads >= m.cfg.n_kv_heads ==> m.group() == m.cfg.n_heads / m.cfg.n_kv_heads,
        m.cfg.n_heads < m.cfg.n_kv_heads ==> m.group() == 1,
{
    let n = m.cfg.n_heads as int;
    let k = m.cfg.n_kv_heads as int;
    if n >= k {
        assert(n / k >= 1) by (nonlinear_arith)
            requires
                0 < k <= n,
        ;
    } else {
        assert(n / k == 0) by (nonlinear_arith)
            requires
                0 <= n < k,
        ;
    }
}

/// The family names its tensors in this order, says which of them a model cannot do
/// without, and describes each.
pub proof fn law_tensors_are_named_in_order(a: MiniCpmArchitecture)
    ensures
        a.id() == "minicpm"@,
        a.tensors() == minicpm_patterns(),
        minicpm_patterns().len() == 12,
        minicpm_patterns()[0].pattern == "token_embd.weight"@ && minicpm_patterns()[0].required,
        minicpm_patterns()[1].pattern == "blk.{i}.attn_norm.weight"@
            && minicpm_patterns()[1].required,
        minicpm_patterns()[2].pattern == "blk.{i}.ffn_norm.weight"@
            && minicpm_patterns()[2].required,
        minicpm_patterns()[3].pattern == "blk.{i}.attn_q.weight"@ && minicpm_patterns()[3].required,
        minicpm_patterns()[4].pattern == "blk.{i}.attn_k.weight"@ && minicpm_patterns()[4].required,
        minicpm_patterns()[5].pattern == "blk.{i}.attn_v.weight"@ && minicpm_patterns()[5].required,
        minicpm_patterns()[6].pattern == "blk.{i}.attn_output.weight"@
            && minicpm_patterns()[6].required,
        minicpm_patterns()[7].pattern == "blk.{i}.ffn_gate.weight"@
            && minicpm_patterns()[7].required,
        minicpm_patterns()[8].pattern == "blk.{i}.ffn_up.weight"@ && minicpm_patterns()[8].required,
        minicpm_patterns()[9].pattern == "blk.{i}.ffn_down.weight"@
            && minicpm_patterns()[9].required,
        minicpm_patterns()[10].pattern == "output_norm.weight"@ && minicpm_patterns()[10].required,
        minicpm_patterns()[11].pattern == "output.weight"@ && minicpm_patterns()[11].required,
        minicpm_patterns()[0].description == "Token embedding"@,
        minicpm_patterns()[1].description == "Pre-attention RMSNorm"@,
        minicpm_patterns()[2].description == "Pre-FFN RMSNorm"@,
        minicpm_patterns()[3].description == "Query projection"@,
        minicpm_patterns()[4].description == "Key projection"@,
        minicpm_patterns()[5].description == "Value projection"@,
        minicpm_patterns()[6].description == "Attention output projection"@,
        minicpm_patterns()[7].description == "FFN gate projection (SwiGLU)"@,
        minicpm_patterns()[8].description == "FFN up projection"@,
        minicpm_patterns()[9].description == "FFN down projection"@,
        minicpm_patterns()[10].description == "Final RMSNorm"@,
        minicpm_patterns()[11].description == "LM head"@,
{
}

/// A configuration with another base size differs in nothing but its embedding
/// scale.
pub proof fn law_only_the_scale_changes(a: MiniCpmConfig, b: MiniCpmConfig)
    requires
        b.same_but_scale(a),
    ensures
        b == (MiniCpmConfig {
            dim_model_base: b.dim_model_base,
            embedding_scale: b.embedding_scale,
            ..a
        }),
{
}

/// A configuration gives a layer its own numbers of heads and its head size.
pub proof fn law_layout_follows_configuration(c: MiniCpmConfig)
    ensures
        c.layout().num_heads == c.n_heads,
        c.layout().num_kv_heads == c.n_kv_heads,
        c.layout().head_dim == c.head_dim,
{
}

} // verus!
