//! OLMo2: a decoder with normed heads and norms after its networks.

use crate::common::embedding::{embed_token, last_token_failure, row_failure, row_of};
use crate::common::heads::{
    attends, gqa_ratio, group_of, law_attention_plans_are_unique, law_strided_plans_are_grouped,
    plan_strided, same_reads, strided_as_planned, CausalReads, HeadLayout,
};
use crate::common::linear::QuantTensor;
use crate::common::norm::RmsNorm;
use crate::common::pass::{
    begin_last_token, law_pass_reaches_every_stage, law_tokens_end_in_order, Order, Pass, Stage,
};
use crate::common::rope::{standard, RopeTable};
use crate::common::sizes::row_starts;
use crate::config::ModelConfig;
use crate::error::{follows, ArchResult};
use crate::gguf::TensorStore;
use crate::traits::{
    add_pattern, build_refusal, no_patterns, pattern_views, refuse_build, tensor, ModelArchitecture,
    PatternView, TensorNamePattern,
};
use vstd::arithmetic::div_mod::lemma_fundamental_div_mod;
use vstd::arithmetic::mul::lemma_mul_nonnegative;
use vstd::prelude::*;

verus! {

/// The family of models with the identifier `olmo2`.
#[derive(Debug, Clone, Copy)]
pub struct Olmo2Architecture;

impl Olmo2Architecture {
    /// The family.
    pub fn new() -> (a: Self)
        ensures
            a == Olmo2Architecture,
    {
        Olmo2Architecture
    }

    /// Answers a request to build a model from its tensors' names: the tensors'
    /// data can only be had from a file, so every request is refused.
    pub fn build(&self, config: &ModelConfig, _tensors: &TensorStore) -> (r: ArchResult<()>)
        ensures
            r matches Err(e) && e@ == build_refusal(
                config@,
                "token_embd.weight (use Olmo2Forward::new for full loading)"@,
            ),
    {
        refuse_build(
            config,
            "token_embd.weight (use Olmo2Forward::new for full loading)",
        )
    }
}

impl Default for Olmo2Architecture {
    fn default() -> (a: Self)
        ensures
            a == Olmo2Architecture,
    {
        Olmo2Architecture
    }
}

/// The tensors of the family.
pub open spec fn olmo2_patterns() -> Seq<PatternView> {
    seq![
        tensor("token_embd.weight"@, "Token embedding matrix [vocab_size, hidden_size]"@, true),
        tensor("output_norm.weight"@, "Final RMSNorm scale weights"@, true),
        tensor("output.weight"@, "LM head / unembedding matrix [vocab_size, hidden_size]"@, true),
        tensor("blk.{i}.attn_q_norm.weight"@, "Per-head query RMSNorm scale"@, true),
        tensor("blk.{i}.attn_k_norm.weight"@, "Per-head key RMSNorm scale"@, true),
        tensor("blk.{i}.attn_q.weight"@, "Query projection weight"@, true),
        tensor("blk.{i}.attn_k.weight"@, "Key projection weight"@, true),
        tensor("blk.{i}.attn_v.weight"@, "Value projection weight"@, true),
        tensor("blk.{i}.attn_output.weight"@, "Attention output projection weight"@, true),
        tensor("blk.{i}.attn_post_norm.weight"@, "Post-attention RMSNorm scale"@, true),
        tensor("blk.{i}.ffn_gate.weight"@, "FFN gate projection weight (SwiGLU)"@, true),
        tensor("blk.{i}.ffn_up.weight"@, "FFN up projection weight"@, true),
        tensor("blk.{i}.ffn_down.weight"@, "FFN down projection weight"@, true),
        tensor("blk.{i}.ffn_post_norm.weight"@, "Post-FFN RMSNorm scale"@, true),
    ]
}

/// Lists the tensors of the family.
pub fn olmo2_tensor_name_patterns() -> (v: Vec<TensorNamePattern>)
    ensures
        pattern_views(v@) == olmo2_patterns(),
{
    let mut v = no_patterns();
    add_pattern(
        &mut v,
        "token_embd.weight",
        "Token embedding matrix [vocab_size, hidden_size]",
        true,
    );
    add_pattern(&mut v, "output_norm.weight", "Final RMSNorm scale weights", true);
    add_pattern(
        &mut v,
        "output.weight",
        "LM head / unembedding matrix [vocab_size, hidden_size]",
        true,
    );
    add_pattern(&mut v, "blk.{i}.attn_q_norm.weight", "Per-head query RMSNorm scale", true);
    add_pattern(&mut v, "blk.{i}.attn_k_norm.weight", "Per-head key RMSNorm scale", true);
    add_pattern(&mut v, "blk.{i}.attn_q.weight", "Query projection weight", true);
    add_pattern(&mut v, "blk.{i}.attn_k.weight", "Key projection weight", true);
    add_pattern(&mut v, "blk.{i}.attn_v.weight", "Value projection weight", true);
    add_pattern(&mut v, "blk.{i}.attn_output.weight", "Attention output projection weight", true);
    add_pattern(&mut v, "blk.{i}.attn_post_norm.weight", "Post-attention RMSNorm scale", true);
    add_pattern(&mut v, "blk.{i}.ffn_gate.weight", "FFN gate projection weight (SwiGLU)", true);
    add_pattern(&mut v, "blk.{i}.ffn_up.weight", "FFN up projection weight", true);
    add_pattern(&mut v, "blk.{i}.ffn_down.weight", "FFN down projection weight", true);
    add_pattern(&mut v, "blk.{i}.ffn_post_norm.weight", "Post-FFN RMSNorm scale", true);
    v
}

impl ModelArchitecture for Olmo2Architecture {
    open spec fn id(&self) -> Seq<char> {
        "olmo2"@
    }

    open spec fn tensors(&self) -> Seq<PatternView> {
        olmo2_patterns()
    }

    fn arch_id(&self) -> (r: &'static str) {
        "olmo2"
    }

    fn tensor_names(&self) -> (v: Vec<TensorNamePattern>) {
        olmo2_tensor_name_patterns()
    }
}

/// The hyperparameters of the family. Numbers of type `f32` are patterns.
#[derive(Debug, Clone, Copy, PartialEq, Eq)]
pub struct Olmo2Config {
    /// Number of layers.
    pub n_layers: usize,
    /// Size of a hidden state.
    pub hidden_size: usize,
    /// Number of query heads.
    pub n_heads: usize,
    /// Number of key and value heads.
    pub n_kv_heads: usize,
    /// Inner size of a feed-forward network.
    pub intermediate_size: usize,
    /// Number of tokens in the vocabulary.
    pub vocab_size: usize,
    /// Greatest number of tokens in a context.
    pub max_context_length: usize,
    /// Epsilon of the norms.
    pub norm_eps: u32,
    /// Base frequency of the rotary embedding.
    pub rope_freq_base: u32,
    /// Size of one head.
    pub head_dim: usize,
}

impl Olmo2Config {
    /// The heads of a layer.
    pub open spec fn layout(self) -> HeadLayout {
        HeadLayout {
            num_heads: self.n_heads,
            num_kv_heads: self.n_kv_heads,
            head_dim: self.head_dim,
        }
    }
}

/// The weights of one layer. Norms follow attention and the feed-forward
/// network, and precede neither.
#[derive(Debug)]
pub struct Olmo2Layer {
    /// Norm of each query head.
    pub q_norm: RmsNorm,
    /// Norm of each key head.
    pub k_norm: RmsNorm,
    /// Norm after attention.
    pub attn_post_norm: RmsNorm,
    /// Norm after the feed-forward network.
    pub ffn_post_norm: RmsNorm,
    /// Query projection.
    pub attn_q: QuantTensor,
    /// Key projection.
    pub attn_k: QuantTensor,
    /// Value projection.
    pub attn_v: QuantTensor,
    /// Output projection of attention.
    pub attn_out: QuantTensor,
    /// Gate projection.
    pub ffn_gate: QuantTensor,
    /// Up projection.
    pub ffn_up: QuantTensor,
    /// Down projection.
    pub ffn_down: QuantTensor,
}

/// A model.
#[derive(Debug)]
pub struct Olmo2Forward {
    /// The configuration.
    pub cfg: Olmo2Config,
    /// The embedding table, one row for each token.
    pub token_embd: Vec<u32>,
    /// The layers.
    pub layers: Vec<Olmo2Layer>,
    /// Norm before the output projection.
    pub output_norm: RmsNorm,
    /// Output projection, one row for each token.
    pub output_weight: Vec<u32>,
    /// The table of angles.
    pub rope_table: RopeTable,
}

impl Olmo2Forward {
    /// A model of given weights.
    pub fn new(
        cfg: Olmo2Config,
        token_embd: Vec<u32>,
        layers: Vec<Olmo2Layer>,
        output_norm: RmsNorm,
        output_weight: Vec<u32>,
        max_context_length: usize,
    ) -> (m: Self)
        requires
            max_context_length * (cfg.head_dim / 2) <= usize::MAX,
        ensures
            m.cfg == cfg,
            m.token_embd == token_embd,
            m.layers == layers,
            m.output_norm == output_norm,
            m.output_weight == output_weight,
            m.rope_table.is_table(
                cfg.head_dim,
                max_context_length as nat,
                standard(cfg.rope_freq_base),
            ),
    {
        let rope_table = RopeTable::new_standard(
            cfg.head_dim,
            max_context_length,
            cfg.rope_freq_base,
        );
        Olmo2Forward { cfg, token_embd, layers, output_norm, output_weight, rope_table }
    }

    /// Looks up a token.
    pub fn embed_token(&self, token: u32) -> (r: ArchResult<Vec<u32>>)
        ensures
            follows(
                r,
                row_failure(
                    self.token_embd@,
                    self.cfg.hidden_size as nat,
                    self.cfg.vocab_size as nat,
                    token,
                    "token_id"@,
                ),
            ),
            r matches Ok(v) ==> v@ == row_of(
                self.token_embd@,
                self.cfg.hidden_size as nat,
                token as nat,
            ),
    {
        embed_token(
            &self.token_embd,
            self.cfg.hidden_size,
            self.cfg.vocab_size,
            token,
            "token_id",
        )
    }

    /// Where the heads of a query or a key of `len` elements begin, which are
    /// normed one by one. A head size of zero makes `len` empty heads.
    pub fn apply_qk_norm(len: usize, head_dim: usize) -> (starts: Vec<usize>)
        ensures
            starts@.len() == (if head_dim == 0 {
                len as int
            } else {
                (len / head_dim) as int
            }),
            forall|h: int|
                0 <= h < starts@.len() ==> {
                    &&& #[trigger] starts@[h] == h * head_dim
                    &&& starts@[h] + head_dim <= len
                },
    {
        let n: usize = if head_dim == 0 {
            len
        } else {
            len / head_dim
        };
        proof {
            if head_dim == 0 {
                assert(n * head_dim == 0) by (nonlinear_arith)
                    requires
                        head_dim == 0,
                ;
            } else {
                lemma_fundamental_div_mod(len as int, head_dim as int);
                assert(n * head_dim == head_dim * n) by (nonlinear_arith);
            }
        }
        row_starts(n, head_dim, len)
    }

    /// Plans what the heads read when a token attends after `cached` others: the
    /// positions of all of them and its own. A cached position holds what the key
    /// projection gives for a token, the keys of all key and value heads in a row,
    /// and each query head attends to the key of its group.
    pub fn run_attention(&self, cached: usize) -> (plan: Vec<CausalReads>)
        requires
            cached < usize::MAX,
            (cached + 1) * (self.cfg.n_kv_heads * self.cfg.head_dim) + self.cfg.n_heads
                * self.cfg.head_dim <= usize::MAX,
        ensures
            plan@.len() == self.cfg.n_heads,
            forall|h: int|
                0 <= h < plan@.len() ==> strided_as_planned(
                    #[trigger] plan@[h],
                    self.cfg.n_kv_heads * self.cfg.head_dim,
                    self.cfg.head_dim as int,
                    self.group(),
                    h,
                    cached + 1,
                ),
    {
        let group: usize = gqa_ratio(self.cfg.n_heads, self.cfg.n_kv_heads);
        let ghost row = self.cfg.n_kv_heads * self.cfg.head_dim;
        proof {
            lemma_mul_nonnegative(self.cfg.n_kv_heads as int, self.cfg.head_dim as int);
            lemma_mul_nonnegative(self.cfg.n_heads as int, self.cfg.head_dim as int);
            assert((cached + 1) * row >= row) by (nonlinear_arith)
                requires
                    row >= 0,
            ;
        }
        let stride: usize = self.cfg.n_kv_heads * self.cfg.head_dim;
        plan_strided(self.cfg.n_heads, group, self.cfg.head_dim, stride, cached + 1)
    }

    /// Query heads that share one key and value head, and at least 1.
    pub open spec fn group(&self) -> int {
        let g = group_of(self.cfg.n_heads as nat, self.cfg.n_kv_heads as nat);
        if g == 0 {
            1
        } else {
            g as int
        }
    }

    /// Begins a pass over the last of a sequence of tokens, after `cached`
    /// others.
    pub fn run_layers(&self, tokens: &Vec<u32>, cached: usize) -> (r: ArchResult<Pass>)
        requires
            cached < usize::MAX,
        ensures
            follows(
                r,
                last_token_failure(
                    self.token_embd@,
                    self.cfg.hidden_size as nat,
                    self.cfg.vocab_size as nat,
                    tokens@,
                    "token_id"@,
                ),
            ),
            r matches Ok(p) ==> p.begins(
                Order::TokenByToken,
                self.cfg.n_layers as nat,
                cached as nat,
                self.token_embd@,
                self.cfg.hidden_size as nat,
                seq![tokens@.last()],
            ),
    {
        begin_last_token(
            &self.token_embd,
            self.cfg.hidden_size,
            self.cfg.vocab_size,
            tokens,
            self.cfg.n_layers,
            cached,
        )
    }

    /// Begins a pass for the logits after the last token, which is the only one run.
    pub fn forward(&self, tokens: &Vec<u32>, cached: usize) -> (r: ArchResult<Pass>)
        requires
            cached < usize::MAX,
        ensures
            follows(
                r,
                last_token_failure(
                    self.token_embd@,
                    self.cfg.hidden_size as nat,
                    self.cfg.vocab_size as nat,
                    tokens@,
                    "token_id"@,
                ),
            ),
            r matches Ok(p) ==> p.begins(
                Order::TokenByToken,
                self.cfg.n_layers as nat,
                cached as nat,
                self.token_embd@,
                self.cfg.hidden_size as nat,
                seq![tokens@.last()],
            ),
    {
        self.run_layers(tokens, cached)
    }

    /// Begins a pass for the embedding of the last token, which is the only one run.
    pub fn embed(&self, tokens: &Vec<u32>, cached: usize) -> (r: ArchResult<Pass>)
        requires
            cached < usize::MAX,
        ensures
            follows(
                r,
                last_token_failure(
                    self.token_embd@,
                    self.cfg.hidden_size as nat,
                    self.cfg.vocab_size as nat,
                    tokens@,
                    "token_id"@,
                ),
            ),
            r matches Ok(p) ==> p.begins(
                Order::TokenByToken,
                self.cfg.n_layers as nat,
                cached as nat,
                self.token_embd@,
                self.cfg.hidden_size as nat,
                seq![tokens@.last()],
            ),
    {
        self.run_layers(tokens, cached)
    }

    /// Where the rows of the output projection begin, one for each logit.
    pub fn logit_rows(&self) -> (rows: Vec<usize>)
        requires
            self.cfg.vocab_size * self.cfg.hidden_size <= self.output_weight@.len(),
        ensures
            rows@.len() == self.cfg.vocab_size,
            forall|v: int|
                0 <= v < rows@.len() ==> {
                    &&& #[trigger] rows@[v] == v * self.cfg.hidden_size
                    &&& rows@[v] + self.cfg.hidden_size <= self.output_weight@.len()
                },
    {
        row_starts(self.cfg.vocab_size, self.cfg.hidden_size, self.output_weight.len())
    }

    /// Number of tokens in the vocabulary: the length of the logits.
    pub fn vocab_size(&self) -> (n: usize)
        ensures
            n == self.cfg.vocab_size,
    {
        self.cfg.vocab_size
    }

    /// Greatest number of tokens in a context.
    pub fn max_context_length(&self) -> (n: usize)
        ensures
            n == self.cfg.max_context_length,
    {
        self.cfg.max_context_length
    }

    /// Size of a hidden state: the length of an embedding.
    pub fn hidden_size(&self) -> (n: usize)
        ensures
            n == self.cfg.hidden_size,
    {
        self.cfg.hidden_size
    }
}

/// Heads read what the heads of a LLaMA model of the same sizes read: query head
/// `h` uses the key and value head of its group at every cached position.
pub proof fn law_attends_as_llama(
    model: Olmo2Forward,
    plan: Seq<CausalReads>,
    llama: Seq<CausalReads>,
    cached: int,
)
    requires
        0 < model.cfg.n_kv_heads <= model.cfg.n_heads,
        plan.len() == model.cfg.n_heads,
        forall|h: int|
            0 <= h < plan.len() ==> strided_as_planned(
                #[trigger] plan[h],
                model.cfg.n_kv_heads * model.cfg.head_dim,
                model.cfg.head_dim as int,
                model.group(),
                h,
                cached + 1,
            ),
        attends(llama, model.cfg.layout(), cached, None),
    ensures
        attends(plan, model.cfg.layout(), cached, None),
        same_reads(plan, llama),
{
    let n = model.cfg.n_heads as int;
    let k = model.cfg.n_kv_heads as int;
    assert(n / k >= 1) by (nonlinear_arith)
        requires
            0 < k <= n,
    ;
    law_strided_plans_are_grouped(plan, model.cfg.layout(), cached);
    law_attention_plans_are_unique(plan, llama, model.cfg.layout(), cached, None);
}

/// Tokens before the last make no difference: a sequence is refused where its last
/// token alone is, for the same reason, and otherwise begins the pass of the last
/// token alone. That pass attends once in each layer, at the same position, and ends
/// one token.
pub proof fn law_forward_runs_last_token(
    model: Olmo2Forward,
    tokens: Seq<u32>,
    cached: nat,
    all: Pass,
    alone: Pass,
    layer: int,
)
    requires
        tokens.len() > 0,
        all.begins(
            Order::TokenByToken,
            model.cfg.n_layers as nat,
            cached,
            model.token_embd@,
            model.cfg.hidden_size as nat,
            seq![tokens.last()],
        ),
        alone.begins(
            Order::TokenByToken,
            model.cfg.n_layers as nat,
            cached,
            model.token_embd@,
            model.cfg.hidden_size as nat,
            seq![seq![tokens.last()].last()],
        ),
    ensures
        last_token_failure(
            model.token_embd@,
            model.cfg.hidden_size as nat,
            model.cfg.vocab_size as nat,
            tokens,
            "token_id"@,
        ) == last_token_failure(
            model.token_embd@,
            model.cfg.hidden_size as nat,
            model.cfg.vocab_size as nat,
            seq![tokens.last()],
            "token_id"@,
        ),
        all.shape == alone.shape,
        all.states@ == alone.states@,
        0 <= layer < model.cfg.n_layers ==> all.shape.nth((2 * layer) as nat) == (Stage::Attend {
            layer: layer as usize,
            token: 0,
            position: cached as usize,
        }),
        all.shape.length() == 2 * model.cfg.n_layers,
        all.shape.ended(all.shape.length() as nat) == 1,
{
    assert(0 * model.cfg.n_layers == 0) by (nonlinear_arith);
    if 0 <= layer < model.cfg.n_layers {
        let s = Stage::Attend { layer: layer as usize, token: 0, position: cached as usize };
        law_pass_reaches_every_stage(all.shape, s, (2 * layer) as nat);
    }
    if model.cfg.n_layers > 0 {
        law_tokens_end_in_order(all.shape, 0);
    }
}

/// Query heads share key and value heads by even groups, and each has one of its
/// own where there are more key and value heads than query heads.
pub proof fn law_heads_are_grouped_evenly(m: Olmo2Forward)
    requires
        m.cfg.n_kv_heads > 0,
    ensures
        m.cfg.n_heads >= m.cfg.n_kv_heads ==> m.group() == m.cfg.n_heads / m.cfg.n_kv_heads,
        m.cfg.n_heads < m.cfg.n_kv_heads ==> m.group() == 1,
{
    let n = m.cfg.n_heads as int;
    let k = m.cfg.n_kv_heads as int;
    if n >= k {
        assert(n / k >= 1) by (nonlinear_arith)
            requires
                0 < k <= n,
        ;
    } else {
        assert(n / k == 0) by (nonlinear_arith)
            requires
                0 <= n < k,
        ;
    }
}

/// The family names its tensors in this order, says which of them a model cannot do
/// without, and describes each.
pub proof fn law_tensors_are_named_in_order(a: Olmo2Architecture)
    ensures
        a.id() == "olmo2"@,
        a.tensors() == olmo2_patterns(),
        olmo2_patterns().len() == 14,
        olmo2_patterns()[0].pattern == "token_embd.weight"@ && olmo2_patterns()[0].required,
        olmo2_patterns()[1].pattern == "output_norm.weight"@ && olmo2_patterns()[1].required,
        olmo2_patterns()[2].pattern == "output.weight"@ && olmo2_patterns()[2].required,
        olmo2_patterns()[3].pattern == "blk.{i}.attn_q_norm.weight"@
            && olmo2_patterns()[3].required,
        olmo2_patterns()[4].pattern == "blk.{i}.attn_k_norm.weight"@
            && olmo2_patterns()[4].required,
        olmo2_patterns()[5].pattern == "blk.{i}.attn_q.weight"@ && olmo2_patterns()[5].required,
        olmo2_patterns()[6].pattern == "blk.{i}.attn_k.weight"@ && olmo2_patterns()[6].required,
        olmo2_patterns()[7].pattern == "blk.{i}.attn_v.weight"@ && olmo2_patterns()[7].required,
        olmo2_patterns()[8].pattern == "blk.{i}.attn_output.weight"@
            && olmo2_patterns()[8].required,
        olmo2_patterns()[9].pattern == "blk.{i}.attn_post_norm.weight"@
            && olmo2_patterns()[9].required,
        olmo2_patterns()[10].pattern == "blk.{i}.ffn_gate.weight"@ && olmo2_patterns()[10].required,
        olmo2_patterns()[11].pattern == "blk.{i}.ffn_up.weight"@ && olmo2_patterns()[11].required,
        olmo2_patterns()[12].pattern == "blk.{i}.ffn_down.weight"@ && olmo2_patterns()[12].required,
        olmo2_patterns()[13].pattern == "blk.{i}.ffn_post_norm.weight"@
            && olmo2_patterns()[13].required,
        olmo2_patterns()[0].description == "Token embedding matrix [vocab_size, hidden_size]"@,
        olmo2_patterns()[1].description == "Final RMSNorm scale weights"@,
        olmo2_patterns()[2].description
            == "LM head / unembedding matrix [vocab_size, hidden_size]"@,
        olmo2_patterns()[3].description == "Per-head query RMSNorm scale"@,
        olmo2_patterns()[4].description == "Per-head key RMSNorm scale"@,
        olmo2_patterns()[5].description == "Query projection weight"@,
        olmo2_patterns()[6].description == "Key projection weight"@,
        olmo2_patterns()[7].description == "Value projection weight"@,
        olmo2_patterns()[8].description == "Attention output projection weight"@,
        olmo2_patterns()[9].description == "Post-attention RMSNorm scale"@,
        olmo2_patterns()[10].description == "FFN gate projection weight (SwiGLU)"@,
        olmo2_patterns()[11].description == "FFN up projection weight"@,
        olmo2_patterns()[12].description == "FFN down projection weight"@,
        olmo2_patterns()[13].description == "Post-FFN RMSNorm scale"@,
{
}

/// A configuration gives a layer its own numbers of heads and its head size.
pub proof fn law_layout_follows_configuration(c: Olmo2Config)
    ensures
        c.layout().num_heads == c.n_heads,
        c.layout().num_kv_heads == c.n_kv_heads,
        c.layout().head_dim == c.head_dim,
{
}

} // verus!
