//! GPT-NeoX: a decoder with parallel networks and partly rotated heads.

use crate::common::embedding::{all_have_rows, embedding_row, has_row, row_of};
use crate::common::heads::{
    attends, can_attend, head_layout, layout_of, plan_attention, CausalReads,
};
use crate::common::norm::LayerNorm;
use crate::common::pass::{begin_token_pass, NetworkInput, Order, Pass};
use crate::common::rope::{are_pairs, lenient_count, Frequencies, RopeTable, Rotation};
use crate::common::sizes::row_starts;
use crate::config::ModelConfig;
use crate::error::ArchResult;
use crate::gguf::TensorStore;
use crate::traits::{
    add_pattern, build_refusal, no_patterns, pattern_views, refuse_build, tensor, ModelArchitecture,
    PatternView, TensorNamePattern,
};
use vstd::prelude::*;

verus! {

/// The family of models with the identifier `gptneox`.
#[derive(Debug, Clone, Copy)]
pub struct GptNeoxArchitecture;

impl GptNeoxArchitecture {
    /// The family.
    pub fn new() -> (a: Self)
        ensures
            a == GptNeoxArchitecture,
    {
        GptNeoxArchitecture
    }

    /// Answers a request to build a model from its tensors' names: the tensors'
    /// data can only be had from a file, so every request is refused.
    pub fn build(&self, config: &ModelConfig, _tensors: &TensorStore) -> (r: ArchResult<()>)
        ensures
            r matches Err(e) && e@ == build_refusal(
                config@,
                "token_embd.weight (use GptNeoxModel::new for full loading)"@,
            ),
    {
        refuse_build(
            config,
            "token_embd.weight (use GptNeoxModel::new for full loading)",
        )
    }
}

impl Default for GptNeoxArchitecture {
    fn default() -> (a: Self)
        ensures
            a == GptNeoxArchitecture,
    {
        GptNeoxArchitecture
    }
}

/// The tensors of the family.
pub open spec fn gpt_neox_patterns() -> Seq<PatternView> {
    seq![
        tensor("token_embd.weight"@, "Token embedding matrix"@, true),
        tensor("output_norm.weight"@, "Final LayerNorm scale"@, true),
        tensor("output_norm.bias"@, "Final LayerNorm bias"@, true),
        tensor("output.weight"@, "LM head / unembedding projection"@, true),
        tensor("blk.{i}.ln1.weight"@, "Pre-attention LayerNorm scale (gamma)"@, true),
        tensor("blk.{i}.ln1.bias"@, "Pre-attention LayerNorm bias (beta)"@, true),
        tensor("blk.{i}.ln2.weight"@, "Pre-FFN LayerNorm scale (gamma)"@, true),
        tensor("blk.{i}.ln2.bias"@, "Pre-FFN LayerNorm bias (beta)"@, true),
        tensor("blk.{i}.attn_q.weight"@, "Query projection"@, true),
        tensor("blk.{i}.attn_k.weight"@, "Key projection"@, true),
        tensor("blk.{i}.attn_v.weight"@, "Value projection"@, true),
        tensor("blk.{i}.attn_output.weight"@, "Attention output projection"@, true),
        tensor("blk.{i}.ffn_up.weight"@, "FFN up/gate projection (GELU)"@, true),
        tensor("blk.{i}.ffn_down.weight"@, "FFN down projection"@, true),
    ]
}

/// Lists the tensors of the family.
fn gpt_neox_tensors() -> (v: Vec<TensorNamePattern>)
    ensures
        pattern_views(v@) == gpt_neox_patterns(),
{
    let mut v = no_patterns();
    add_pattern(&mut v, "token_embd.weight", "Token embedding matrix", true);
    add_pattern(&mut v, "output_norm.weight", "Final LayerNorm scale", true);
    add_pattern(&mut v, "output_norm.bias", "Final LayerNorm bias", true);
    add_pattern(&mut v, "output.weight", "LM head / unembedding projection", true);
    add_pattern(&mut v, "blk.{i}.ln1.weight", "Pre-attention LayerNorm scale (gamma)", true);
    add_pattern(&mut v, "blk.{i}.ln1.bias", "Pre-attention LayerNorm bias (beta)", true);
    add_pattern(&mut v, "blk.{i}.ln2.weight", "Pre-FFN LayerNorm scale (gamma)", true);
    add_pattern(&mut v, "blk.{i}.ln2.bias", "Pre-FFN LayerNorm bias (beta)", true);
    add_pattern(&mut v, "blk.{i}.attn_q.weight", "Query projection", true);
    add_pattern(&mut v, "blk.{i}.attn_k.weight", "Key projection", true);
    add_pattern(&mut v, "blk.{i}.attn_v.weight", "Value projection", true);
    add_pattern(&mut v, "blk.{i}.attn_output.weight", "Attention output projection", true);
    add_pattern(&mut v, "blk.{i}.ffn_up.weight", "FFN up/gate projection (GELU)", true);
    add_pattern(&mut v, "blk.{i}.ffn_down.weight", "FFN down projection", true);
    v
}

impl ModelArchitecture for GptNeoxArchitecture {
    open spec fn id(&self) -> Seq<char> {
        "gptneox"@
    }

    open spec fn tensors(&self) -> Seq<PatternView> {
        gpt_neox_patterns()
    }

    fn arch_id(&self) -> (r: &'static str) {
        "gptneox"
    }

    fn tensor_names(&self) -> (v: Vec<TensorNamePattern>) {
        gpt_neox_tensors()
    }
}

/// The fraction of a head that is rotated where nothing else is said: a quarter,
/// as a pattern.
pub const DEFAULT_PARTIAL_ROTARY_FACTOR: u32 = 0x3E80_0000;

/// The weights of one layer.
#[derive(Debug)]
pub struct GptNeoxLayer {
    /// Norm before attention.
    pub ln1: LayerNorm,
    /// Norm before the feed-forward network.
    pub ln2: LayerNorm,
    /// Query projection, rows of the hidden size.
    pub attn_q: Vec<u32>,
    /// Key projection, rows of the hidden size.
    pub attn_k: Vec<u32>,
    /// Value projection, rows of the hidden size.
    pub attn_v: Vec<u32>,
    /// Output projection of attention.
    pub attn_output: Vec<u32>,
    /// Up projection, rows of the hidden size.
    pub ffn_up: Vec<u32>,
    /// Down projection, rows of the inner size.
    pub ffn_down: Vec<u32>,
}

/// How a layer with two networks works on the state of a token.
#[derive(Debug)]
pub struct ParallelLayer<'a> {
    /// The norm of what attention reads.
    pub attention_norm: &'a LayerNorm,
    /// The norm of what the feed-forward network reads.
    pub network_norm: &'a LayerNorm,
    /// The state that the feed-forward network reads.
    pub network_input: NetworkInput,
}

/// A model.
#[derive(Debug)]
pub struct GptNeoxModel {
    /// The configuration.
    pub config: ModelConfig,
    /// The fraction of a head that is rotated, as a pattern.
    pub partial_rotary_factor: u32,
    /// The embedding table, one row for each token.
    pub token_embd: Vec<u32>,
    /// The layers.
    pub layers: Vec<GptNeoxLayer>,
    /// Norm before the output projection.
    pub output_norm: LayerNorm,
    /// Output projection, one row for each token.
    pub output_weights: Vec<u32>,
    /// The table of angles.
    pub rope: RopeTable,
}

/// The greatest even number that is at most `n`.
pub open spec fn even_part(n: int) -> int {
    n - n % 2
}

/// The number of rotated elements of a head: even, and at most its size.
pub open spec fn rotary_dims_of(whole: int, head_dim: int) -> int {
    if even_part(whole) <= even_part(head_dim) {
        even_part(whole)
    } else {
        even_part(head_dim)
    }
}

impl GptNeoxModel {
    /// A model of given weights.
    pub fn new(
        config: ModelConfig,
        partial_rotary_factor: u32,
        token_embd: Vec<u32>,
        layers: Vec<GptNeoxLayer>,
        output_norm: LayerNorm,
        output_weights: Vec<u32>,
    ) -> (m: Self)
        requires
            config.max_context_length * (config.head_dim / 2) <= usize::MAX,
        ensures
            m.config == config,
            m.partial_rotary_factor == partial_rotary_factor,
            m.token_embd == token_embd,
            m.layers == layers,
            m.output_norm == output_norm,
            m.output_weights == output_weights,
            m.rope.is_table(
                config.head_dim,
                config.max_context_length as nat,
                (Frequencies {
                    base: config.rope_freq_base,
                    scaling_type: config.rope_scaling_type,
                    scaling_factor: config.rope_scaling_factor,
                }),
            ),
    {
        let rope = RopeTable::new(
            config.head_dim,
            config.max_context_length,
            config.rope_freq_base,
            config.rope_scaling_type,
            config.rope_scaling_factor,
        );
        GptNeoxModel {
            config,
            partial_rotary_factor,
            token_embd,
            layers,
            output_norm,
            output_weights,
            rope,
        }
    }

    /// The number of rotated elements of a head. `whole` is the whole part of
    /// the rotary factor times the head size.
    pub fn rotary_dims(&self, head_dim: usize, whole: usize) -> (n: usize)
        ensures
            n == rotary_dims_of(whole as int, head_dim as int),
    {
        let wanted: usize = whole - whole % 2;
        let most: usize = head_dim - head_dim % 2;
        if wanted <= most {
            wanted
        } else {
            most
        }
    }

    /// The hidden state of a token before the first layer; `None` where the
    /// embedding table has no row for it.
    pub fn embed_token(&self, token: u32) -> (r: Option<Vec<u32>>)
        ensures
            match r {
                Some(v) => has_row(
                    self.token_embd@,
                    self.config.hidden_size as nat,
                    token as nat,
                ) && v@ == row_of(self.token_embd@, self.config.hidden_size as nat, token as nat),
                None => !has_row(self.token_embd@, self.config.hidden_size as nat, token as nat),
            },
    {
        embedding_row(&self.token_embd, self.config.hidden_size, token)
    }

    /// The rotations of the first elements of a head at a position; `None` where
    /// the head or the table is too short.
    pub fn apply_partial_rope(&self, len: usize, position: usize, rotary_dims: usize) -> (r: Option<
        Vec<Rotation>,
    >)
        ensures
            rotary_dims == 0 || len == 0 ==> (r matches Some(rs) && rs@.len() == 0),
            rotary_dims > 0 && len > 0 ==> {
                let h = rotary_dims / 2;
                &&& r is Some <==> h == 0 || (2 * h <= len && position * self.rope.half() + h
                    <= self.rope.positions() * self.rope.half())
                &&& r matches Some(rs) ==> are_pairs(
                    rs@,
                    h as int,
                    0,
                    h as int,
                    position * self.rope.half(),
                )
            },
    {
        self.rope.partial_rotations(len, position, rotary_dims)
    }

    /// The rotations of a query or key head at a position. None are made where
    /// the table does not reach the position.
    pub fn head_rotations(&self, position: usize, rotary_dims: usize) -> (rs: Vec<Rotation>)
        ensures
            are_pairs(
                rs@,
                lenient_count(
                    self.config.head_dim as int,
                    (rotary_dims / 2) as int,
                    position * self.rope.half() + rotary_dims / 2 <= self.rope.positions()
                        * self.rope.half(),
                ),
                0,
                (rotary_dims / 2) as int,
                position * self.rope.half(),
            ),
    {
        self.rope.lenient_rotations(self.config.head_dim, position, rotary_dims)
    }

    /// Where the rows of a weight begin that makes `out_dim` elements of
    /// `in_dim`.
    pub fn gemv(weight: &Vec<u32>, out_dim: usize, in_dim: usize) -> (rows: Vec<usize>)
        requires
            out_dim * in_dim <= weight@.len(),
        ensures
            rows@.len() == out_dim,
            forall|i: int|
                0 <= i < rows@.len() ==> {
                    &&& #[trigger] rows@[i] == i * in_dim
                    &&& rows@[i] + in_dim <= weight@.len()
                },
    {
        row_starts(out_dim, in_dim, weight.len())
    }

    /// The length of a row of the output projection of attention.
    pub fn attention_width(&self) -> (n: usize)
        ensures
            n == (if self.config.num_attention_heads * self.config.head_dim
                <= self.config.hidden_size {
                self.config.num_attention_heads * self.config.head_dim
            } else {
                self.config.hidden_size as int
            }),
    {
        match self.config.num_attention_heads.checked_mul(self.config.head_dim) {
            Some(n) => if n <= self.config.hidden_size {
                n
            } else {
                self.config.hidden_size
            },
            None => self.config.hidden_size,
        }
    }

    /// Plans what the heads read when a token attends: all positions up to its
    /// own.
    pub fn attention(&self, position: usize) -> (plan: Vec<CausalReads>)
        requires
            can_attend(layout_of(self.config@), position as int),
        ensures
            attends(plan@, layout_of(self.config@), position as int, None),
    {
        plan_attention(&head_layout(&self.config), position, None)
    }

    /// How a layer works on the state of a token: attention reads the state normed by
    /// the first norm, the feed-forward network reads the same state normed by the
    /// second, and both outcomes are added to it at once.
    pub fn layer_forward(&self, layer_idx: usize) -> (plan: ParallelLayer)
        requires
            layer_idx < self.layers@.len(),
        ensures
            plan.attention_norm == self.layers@[layer_idx as int].ln1,
            plan.network_norm == self.layers@[layer_idx as int].ln2,
            plan.network_input == NetworkInput::Entering,
    {
        ParallelLayer {
            attention_norm: &self.layers[layer_idx].ln1,
            network_norm: &self.layers[layer_idx].ln2,
            network_input: NetworkInput::Entering,
        }
    }

    /// Begins a pass after `cached` tokens; `None` where the embedding table has
    /// no row for a token.
    pub fn forward(&self, tokens: &Vec<u32>, cached: usize) -> (r: Option<Pass>)
        requires
            cached + tokens@.len() <= usize::MAX,
        ensures
            r is Some <==> all_have_rows(self.token_embd@, self.config.hidden_size as nat, tokens@),
            r matches Some(p) ==> p.begins(
                Order::TokenByToken,
                self.layers@.len(),
                cached as nat,
                self.token_embd@,
                self.config.hidden_size as nat,
                tokens@,
            ),
    {
        begin_token_pass(
            &self.token_embd,
            self.config.hidden_size,
            tokens,
            self.layers.len(),
            cached,
        )
    }

    /// Number of tokens in the vocabulary: the length of the logits.
    pub fn vocab_size(&self) -> (n: usize)
        ensures
            n == self.config.vocab_size,
    {
        self.config.vocab_size
    }

    /// Greatest number of tokens in a context.
    pub fn max_context_length(&self) -> (n: usize)
        ensures
            n == self.config.max_context_length,
    {
        self.config.max_context_length
    }

    /// Size of a hidden state: the length of an embedding.
    pub fn hidden_size(&self) -> (n: usize)
        ensures
            n == self.config.hidden_size,
    {
        self.config.hidden_size
    }
}

/// The number of rotated elements is even, is at most the size of a head and at
/// most what was asked for, and is the greatest such number.
pub proof fn law_rotary_dims_pair_up(whole: nat, head_dim: nat, other: nat)
    ensures
        rotary_dims_of(whole as int, head_dim as int) % 2 == 0,
        0 <= rotary_dims_of(whole as int, head_dim as int) <= head_dim,
        rotary_dims_of(whole as int, head_dim as int) <= whole,
        other % 2 == 0 && other <= head_dim && other <= whole ==> other <= rotary_dims_of(
            whole as int,
            head_dim as int,
        ),
{
}

/// The family names its tensors in this order, says which of them a model cannot do
/// without, and describes each.
pub proof fn law_tensors_are_named_in_order(a: GptNeoxArchitecture)
    ensures
        a.id() == "gptneox"@,
        a.tensors() == gpt_neox_patterns(),
        gpt_neox_patterns().len() == 14,
        gpt_neox_patterns()[0].pattern == "token_embd.weight"@ && gpt_neox_patterns()[0].required,
        gpt_neox_patterns()[1].pattern == "output_norm.weight"@ && gpt_neox_patterns()[1].required,
        gpt_neox_patterns()[2].pattern == "output_norm.bias"@ && gpt_neox_patterns()[2].required,
        gpt_neox_patterns()[3].pattern == "output.weight"@ && gpt_neox_patterns()[3].required,
        gpt_neox_patterns()[4].pattern == "blk.{i}.ln1.weight"@ && gpt_neox_patterns()[4].required,
        gpt_neox_patterns()[5].pattern == "blk.{i}.ln1.bias"@ && gpt_neox_patterns()[5].required,
        gpt_neox_patterns()[6].pattern == "blk.{i}.ln2.weight"@ && gpt_neox_patterns()[6].required,
        gpt_neox_patterns()[7].pattern == "blk.{i}.ln2.bias"@ && gpt_neox_patterns()[7].required,
        gpt_neox_patterns()[8].pattern == "blk.{i}.attn_q.weight"@
            && gpt_neox_patterns()[8].required,
        gpt_neox_patterns()[9].pattern == "blk.{i}.attn_k.weight"@
            && gpt_neox_patterns()[9].required,
        gpt_neox_patterns()[10].pattern == "blk.{i}.attn_v.weight"@
            && gpt_neox_patterns()[10].required,
        gpt_neox_patterns()[11].pattern == "blk.{i}.attn_output.weight"@
            && gpt_neox_patterns()[11].required,
        gpt_neox_patterns()[12].pattern == "blk.{i}.ffn_up.weight"@
            && gpt_neox_patterns()[12].required,
        gpt_neox_patterns()[13].pattern == "blk.{i}.ffn_down.weight"@
            && gpt_neox_patterns()[13].required,
        gpt_neox_patterns()[0].description == "Token embedding matrix"@,
        gpt_neox_patterns()[1].description == "Final LayerNorm scale"@,
        gpt_neox_patterns()[2].description == "Final LayerNorm bias"@,
        gpt_neox_patterns()[3].description == "LM head / unembedding projection"@,
        gpt_neox_patterns()[4].description == "Pre-attention LayerNorm scale (gamma)"@,
        gpt_neox_patterns()[5].description == "Pre-attention LayerNorm bias (beta)"@,
        gpt_neox_patterns()[6].description == "Pre-FFN LayerNorm scale (gamma)"@,
        gpt_neox_patterns()[7].description == "Pre-FFN LayerNorm bias (beta)"@,
        gpt_neox_patterns()[8].description == "Query projection"@,
        gpt_neox_patterns()[9].description == "Key projection"@,
        gpt_neox_patterns()[10].description == "Value projection"@,
        gpt_neox_patterns()[11].description == "Attention output projection"@,
        gpt_neox_patterns()[12].description == "FFN up/gate projection (GELU)"@,
        gpt_neox_patterns()[13].description == "FFN down projection"@,
{
}

} // verus!
