//! Mixtral: a decoder whose layers end in experts.

use crate::common::embedding::{all_have_rows, embedding_row, has_row, row_of};
use crate::common::heads::{
    attends, can_attend, head_layout, layout_of, plan_attention, CausalReads, Qkv,
};
use crate::common::moe::MoeFfn;
use crate::common::norm::RmsNorm;
use crate::common::pass::{begin_token_pass, Order, Pass};
use crate::common::sizes::{copied, row_starts};
use crate::config::{ModelConfig, ModelConfigView};
use crate::traits::{
    add_pattern, no_patterns, pattern_views, tensor, ModelArchitecture, PatternView,
    TensorNamePattern,
};
use vstd::arithmetic::mul::lemma_mul_nonnegative;
use vstd::prelude::*;

verus! {

/// The family of models with the identifier `mixtral`.
#[derive(Debug, Clone, Copy)]
pub struct MixtralArchitecture;

impl MixtralArchitecture {
    /// The family.
    pub fn new() -> (a: Self)
        ensures
            a == MixtralArchitecture,
    {
        MixtralArchitecture
    }
}

impl Default for MixtralArchitecture {
    fn default() -> (a: Self)
        ensures
            a == MixtralArchitecture,
    {
        MixtralArchitecture
    }
}

/// The tensors of the family.
pub open spec fn mixtral_patterns() -> Seq<PatternView> {
    seq![
        tensor("token_embd.weight"@, "Token embedding matrix"@, true),
        tensor("output_norm.weight"@, "Final RMSNorm"@, true),
        tensor("output.weight"@, "LM head / unembedding"@, true),
        tensor("blk.{i}.attn_norm.weight"@, "Pre-attention RMSNorm"@, true),
        tensor("blk.{i}.ffn_norm.weight"@, "Pre-FFN RMSNorm"@, true),
        tensor("blk.{i}.ffn_gate_inp.weight"@, "Router [num_experts, hidden_size]"@, true),
        tensor("blk.{i}.ffn_gate_exps.weight"@, "All expert gate projections (packed)"@, true),
        tensor("blk.{i}.ffn_up_exps.weight"@, "All expert up projections (packed)"@, true),
        tensor("blk.{i}.ffn_down_exps.weight"@, "All expert down projections (packed)"@, true),
    ]
}

/// Lists the tensors of the family.
fn mixtral_tensors() -> (v: Vec<TensorNamePattern>)
    ensures
        pattern_views(v@) == mixtral_patterns(),
{
    let mut v = no_patterns();
    add_pattern(&mut v, "token_embd.weight", "Token embedding matrix", true);
    add_pattern(&mut v, "output_norm.weight", "Final RMSNorm", true);
    add_pattern(&mut v, "output.weight", "LM head / unembedding", true);
    add_pattern(&mut v, "blk.{i}.attn_norm.weight", "Pre-attention RMSNorm", true);
    add_pattern(&mut v, "blk.{i}.ffn_norm.weight", "Pre-FFN RMSNorm", true);
    add_pattern(&mut v, "blk.{i}.ffn_gate_inp.weight", "Router [num_experts, hidden_size]", true);
    add_pattern(
        &mut v,
        "blk.{i}.ffn_gate_exps.weight",
        "All expert gate projections (packed)",
        true,
    );
    add_pattern(&mut v, "blk.{i}.ffn_up_exps.weight", "All expert up projections (packed)", true);
    add_pattern(
        &mut v,
        "blk.{i}.ffn_down_exps.weight",
        "All expert down projections (packed)",
        true,
    );
    v
}

impl ModelArchitecture for MixtralArchitecture {
    open spec fn id(&self) -> Seq<char> {
        "mixtral"@
    }

    open spec fn tensors(&self) -> Seq<PatternView> {
        mixtral_patterns()
    }

    fn arch_id(&self) -> (r: &'static str) {
        "mixtral"
    }

    fn tensor_names(&self) -> (v: Vec<TensorNamePattern>) {
        mixtral_tensors()
    }
}

/// The experts of a model.
#[derive(Debug, Clone, Copy, PartialEq, Eq)]
pub struct MixtralMoeConfig {
    /// Number of experts.
    pub num_experts: usize,
    /// Experts that one token passes.
    pub num_experts_used: usize,
    /// Size of a hidden state.
    pub hidden_size: usize,
    /// Inner size of an expert.
    pub intermediate_size: usize,
}

/// The experts that a configuration describes: eight, of which a token passes
/// two, where it does not say.
pub open spec fn mixtral_moe_of(c: ModelConfigView) -> MixtralMoeConfig {
    MixtralMoeConfig {
        num_experts: if c.num_experts > 0 {
            c.num_experts
        } else {
            8
        },
        num_experts_used: if c.num_experts_used > 0 {
            c.num_experts_used
        } else {
            2
        },
        hidden_size: c.hidden_size,
        intermediate_size: c.intermediate_size,
    }
}

impl MixtralMoeConfig {
    /// Derives the experts from a configuration.
    pub fn from_model_config(config: &ModelConfig) -> (m: Self)
        ensures
            m == mixtral_moe_of(config@),
    {
        let num_experts: usize = if config.num_experts > 0 {
            config.num_experts
        } else {
            8
        };
        let num_experts_used: usize = if config.num_experts_used > 0 {
            config.num_experts_used
        } else {
            2
        };
        MixtralMoeConfig {
            num_experts,
            num_experts_used,
            hidden_size: config.hidden_size,
            intermediate_size: config.intermediate_size,
        }
    }
}

/// The weights of one layer.
#[derive(Debug)]
pub struct MixtralLayer {
    /// Norm before attention.
    pub attn_norm: RmsNorm,
    /// Norm before the experts.
    pub ffn_norm: RmsNorm,
    /// The experts.
    pub moe_ffn: MoeFfn,
}

/// A model.
#[derive(Debug)]
pub struct MixtralModel {
    /// The configuration.
    pub config: ModelConfig,
    /// The experts.
    pub moe_config: MixtralMoeConfig,
    /// Number of newest positions that a token attends to; all where it is
    /// `None`.
    pub sliding_window: Option<usize>,
    /// The embedding table, one row for each token.
    pub token_embd: Vec<u32>,
    /// The layers.
    pub layers: Vec<MixtralLayer>,
    /// Norm before the output projection.
    pub output_norm: RmsNorm,
    /// Output projection, one row for each token.
    pub output_weights: Vec<u32>,
}

impl MixtralModel {
    /// A model of given weights.
    pub fn new(
        config: ModelConfig,
        token_embd: Vec<u32>,
        layers: Vec<MixtralLayer>,
        output_norm: RmsNorm,
        output_weights: Vec<u32>,
    ) -> (m: Self)
        ensures
            m.config == config,
            m.moe_config == mixtral_moe_of(config@),
            m.sliding_window == config.sliding_window,
            m.token_embd == token_embd,
            m.layers == layers,
            m.output_norm == output_norm,
            m.output_weights == output_weights,
    {
        let moe_config = MixtralMoeConfig::from_model_config(&config);
        let sliding_window: Option<usize> = config.sliding_window;
        MixtralModel {
            config,
            moe_config,
            sliding_window,
            token_embd,
            layers,
            output_norm,
            output_weights,
        }
    }

    /// The hidden state of a token before the first layer; `None` where the
    /// embedding table has no row for it.
    pub fn embed_token(&self, token: u32) -> (r: Option<Vec<u32>>)
        ensures
            match r {
                Some(v) => has_row(
                    self.token_embd@,
                    self.config.hidden_size as nat,
                    token as nat,
                ) && v@ == row_of(self.token_embd@, self.config.hidden_size as nat, token as nat),
                None => !has_row(self.token_embd@, self.config.hidden_size as nat, token as nat),
            },
    {
        embedding_row(&self.token_embd, self.config.hidden_size, token)
    }

    /// The query, the key and the value of a token: the leading elements of its
    /// normed hidden state, which is not projected.
    pub fn project(&self, norm: &Vec<u32>) -> (r: Qkv)
        requires
            layout_of(self.config@).query_size() <= norm@.len(),
            layout_of(self.config@).row() <= norm@.len(),
        ensures
            r.query@ == norm@.take(layout_of(self.config@).query_size()),
            r.key@ == norm@.take(layout_of(self.config@).row()),
            r.value@ == norm@.take(layout_of(self.config@).row()),
    {
        let total: usize = norm.len();
        proof {
            let l = layout_of(self.config@);
            assert(l.query_size() <= total && l.row() <= total);
            assert(l.query_size() == self.config.num_attention_heads * self.config.head_dim);
            assert(l.row() == self.config.num_kv_heads * self.config.head_dim);
            lemma_mul_nonnegative(
                self.config.num_attention_heads as int,
                self.config.head_dim as int,
            );
            lemma_mul_nonnegative(self.config.num_kv_heads as int, self.config.head_dim as int);
        }
        let query: usize = self.config.num_attention_heads * self.config.head_dim;
        let row: usize = self.config.num_kv_heads * self.config.head_dim;
        Qkv {
            query: copied(norm, 0, query),
            key: copied(norm, 0, row),
            value: copied(norm, 0, row),
        }
    }

    /// Plans what the heads read when a token attends: the positions up to its
    /// own, in a window as far as there is one.
    pub fn attention(&self, position: usize) -> (plan: Vec<CausalReads>)
        requires
            can_attend(layout_of(self.config@), position as int),
        ensures
            attends(plan@, layout_of(self.config@), position as int, self.sliding_window),
    {
        plan_attention(&head_layout(&self.config), position, self.sliding_window)
    }

    /// Begins a pass after `cached` tokens; `None` where the embedding table has
    /// no row for a token.
    pub fn forward(&self, tokens: &Vec<u32>, cached: usize) -> (r: Option<Pass>)
        requires
            cached + tokens@.len() <= usize::MAX,
        ensures
            r is Some <==> all_have_rows(self.token_embd@, self.config.hidden_size as nat, tokens@),
            r matches Some(p) ==> p.begins(
                Order::TokenByToken,
                self.layers@.len(),
                cached as nat,
                self.token_embd@,
                self.config.hidden_size as nat,
                tokens@,
            ),
    {
        begin_token_pass(
            &self.token_embd,
            self.config.hidden_size,
            tokens,
            self.layers.len(),
            cached,
        )
    }

    /// Where the rows of the output projection begin, one for each logit.
    pub fn logit_rows(&self) -> (rows: Vec<usize>)
        requires
            self.config.vocab_size * self.config.hidden_size <= self.output_weights@.len(),
        ensures
            rows@.len() == self.config.vocab_size,
            forall|v: int|
                0 <= v < rows@.len() ==> {
                    &&& #[trigger] rows@[v] == v * self.config.hidden_size
                    &&& rows@[v] + self.config.hidden_size <= self.output_weights@.len()
                },
    {
        row_starts(self.config.vocab_size, self.config.hidden_size, self.output_weights.len())
    }

    /// The window that every layer attends in, where metadata gives one.
    pub fn swa_config(&self) -> (r: Option<(u32, bool)>)
        ensures
            r == (match self.config.swa_window {
                Some(w) => Some((w, false)),
                None => None,
            }),
    {
        match self.config.swa_window {
            Some(w) => Some((w, false)),
            None => None,
        }
    }

    /// Number of tokens in the vocabulary: the length of the logits.
    pub fn vocab_size(&self) -> (n: usize)
        ensures
            n == self.config.vocab_size,
    {
        self.config.vocab_size
    }

    /// Greatest number of tokens in a context.
    pub fn max_context_length(&self) -> (n: usize)
        ensures
            n == self.config.max_context_length,
    {
        self.config.max_context_length
    }

    /// Size of a hidden state: the length of an embedding.
    pub fn hidden_size(&self) -> (n: usize)
        ensures
            n == self.config.hidden_size,
    {
        self.config.hidden_size
    }
}

/// A configuration that names its experts is taken at its word, and one that
/// does not gets two of eight; no model has experts without using any.
pub proof fn law_expert_defaults(c: ModelConfigView)
    ensures
        mixtral_moe_of(c).num_experts > 0,
        mixtral_moe_of(c).num_experts_used > 0,
        c.num_experts > 0 ==> mixtral_moe_of(c).num_experts == c.num_experts,
        c.num_experts_used > 0 ==> mixtral_moe_of(c).num_experts_used == c.num_experts_used,
{
}

/// A model that does not say has eight experts, of which a token passes two; the
/// sizes of an expert are those of the configuration.
pub proof fn law_experts_follow_configuration(c: ModelConfigView)
    ensures
        c.num_experts == 0 ==> mixtral_moe_of(c).num_experts == 8,
        c.num_experts > 0 ==> mixtral_moe_of(c).num_experts == c.num_experts,
        c.num_experts_used == 0 ==> mixtral_moe_of(c).num_experts_used == 2,
        c.num_experts_used > 0 ==> mixtral_moe_of(c).num_experts_used == c.num_experts_used,
        mixtral_moe_of(c).hidden_size == c.hidden_size,
        mixtral_moe_of(c).intermediate_size == c.intermediate_size,
{
}

/// The family names its tensors in this order, says which of them a model cannot do
/// without, and describes each.
pub proof fn law_tensors_are_named_in_order(a: MixtralArchitecture)
    ensures
        a.id() == "mixtral"@,
        a.tensors() == mixtral_patterns(),
        mixtral_patterns().len() == 9,
        mixtral_patterns()[0].pattern == "token_embd.weight"@ && mixtral_patterns()[0].required,
        mixtral_patterns()[1].pattern == "output_norm.weight"@ && mixtral_patterns()[1].required,
        mixtral_patterns()[2].pattern == "output.weight"@ && mixtral_patterns()[2].required,
        mixtral_patterns()[3].pattern == "blk.{i}.attn_norm.weight"@
            && mixtral_patterns()[3].required,
        mixtral_patterns()[4].pattern == "blk.{i}.ffn_norm.weight"@
            && mixtral_patterns()[4].required,
        mixtral_patterns()[5].pattern == "blk.{i}.ffn_gate_inp.weight"@
            && mixtral_patterns()[5].required,
        mixtral_patterns()[6].pattern == "blk.{i}.ffn_gate_exps.weight"@
            && mixtral_patterns()[6].required,
        mixtral_patterns()[7].pattern == "blk.{i}.ffn_up_exps.weight"@
            && mixtral_patterns()[7].required,
        mixtral_patterns()[8].pattern == "blk.{i}.ffn_down_exps.weight"@
            && mixtral_patterns()[8].required,
        mixtral_patterns()[0].description == "Token embedding matrix"@,
        mixtral_patterns()[1].description == "Final RMSNorm"@,
        mixtral_patterns()[2].description == "LM head / unembedding"@,
        mixtral_patterns()[3].description == "Pre-attention RMSNorm"@,
        mixtral_patterns()[4].description == "Pre-FFN RMSNorm"@,
        mixtral_patterns()[5].description == "Router [num_experts, hidden_size]"@,
        mixtral_patterns()[6].description == "All expert gate projections (packed)"@,
        mixtral_patterns()[7].description == "All expert up projections (packed)"@,
        mixtral_patterns()[8].description == "All expert down projections (packed)"@,
{
}

} // verus!
