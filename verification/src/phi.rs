//! Phi: a decoder with a joint projection and partly rotated heads.

use crate::bits::F32_HALF;
use crate::common::embedding::{all_have_rows, embedding_row, has_row, row_of};
use crate::common::heads::{
    attends, can_attend, head_layout, layout_of, plan_attention, CausalReads, Qkv,
};
use crate::common::linear::QuantLinear;
use crate::common::load::{
    bytes_failure, embedding_failure, is_linear, is_norm, load_embedding, load_quant_linear,
    load_rms_norm, values_failure, values_of,
};
use crate::common::norm::RmsNorm;
use crate::common::pass::{begin_token_pass, Order, Pass};
use crate::common::rope::{are_pairs, standard, RopeTable, Rotation};
use crate::config::{ModelConfig, ModelConfigView};
use crate::error::{
    first_failure, first_of, follows, law_first_failing_part_is_reported, lemma_first_failure,
    ArchErrorView, ArchResult,
};
use crate::gguf::{GgufModel, TensorMap};
use crate::metadata::{bits_or, MetadataStore};
use crate::text::{block_name, block_tensor, decimal, joined};
use vstd::prelude::*;

verus! {

/// The weights of one layer.
#[derive(Debug)]
pub struct PhiLayer {
    /// Norm before attention.
    pub attn_norm: RmsNorm,
    /// Projection to query, key and value, in this order.
    pub attn_qkv: QuantLinear,
    /// Output projection of attention.
    pub attn_output: QuantLinear,
    /// Norm before the feed-forward network.
    pub ffn_norm: RmsNorm,
    /// Gate projection.
    pub ffn_gate: QuantLinear,
    /// Up projection.
    pub ffn_up: QuantLinear,
    /// Down projection.
    pub ffn_down: QuantLinear,
}

/// A loaded model.
#[derive(Debug)]
pub struct PhiModel {
    /// The configuration.
    pub config: ModelConfig,
    /// The embedding table, one row for each token.
    pub token_embd: Vec<u32>,
    /// The layers.
    pub layers: Vec<PhiLayer>,
    /// Norm before the output projection.
    pub output_norm: RmsNorm,
    /// Output projection.
    pub output: QuantLinear,
    /// The table of angles.
    pub rope: RopeTable,
    /// Number of leading elements of a head that are rotated.
    pub rope_dims: usize,
}

/// The number of rotated elements: at least two.
pub open spec fn rope_dims_of(rotary_dims: usize) -> usize {
    if rotary_dims < 2 {
        2
    } else {
        rotary_dims
    }
}

impl PhiModel {
    /// A model of given weights. `rotary_dims` is the whole part of the head
    /// size times the rotary factor.
    pub fn new(
        config: ModelConfig,
        token_embd: Vec<u32>,
        layers: Vec<PhiLayer>,
        output_norm: RmsNorm,
        output: QuantLinear,
        rotary_dims: usize,
    ) -> (m: Self)
        requires
            config.max_context_length * (rope_dims_of(rotary_dims) / 2) <= usize::MAX,
        ensures
            m.config == config,
            m.token_embd == token_embd,
            m.layers == layers,
            m.output_norm == output_norm,
            m.output == output,
            m.rope_dims == rope_dims_of(rotary_dims),
            m.rope.is_table(
                rope_dims_of(rotary_dims),
                config.max_context_length as nat,
                standard(config.rope_freq_base),
            ),
    {
        let rope_dims: usize = if rotary_dims < 2 {
            2
        } else {
            rotary_dims
        };
        let rope = RopeTable::new_standard(
            rope_dims,
            config.max_context_length,
            config.rope_freq_base,
        );
        PhiModel { config, token_embd, layers, output_norm, output, rope, rope_dims }
    }

    /// The hidden state of a token before the first layer; `None` where the
    /// embedding table has no row for it.
    pub fn embed_token(&self, token: u32) -> (r: Option<Vec<u32>>)
        ensures
            match r {
                Some(v) => has_row(
                    self.token_embd@,
                    self.config.hidden_size as nat,
                    token as nat,
                ) && v@ == row_of(self.token_embd@, self.config.hidden_size as nat, token as nat),
                None => !has_row(self.token_embd@, self.config.hidden_size as nat, token as nat),
            },
    {
        embedding_row(&self.token_embd, self.config.hidden_size, token)
    }

    /// Takes the query, the key and the value of a token out of the output of
    /// their projection.
    pub fn split_qkv(&self, fused: &Vec<u32>) -> (r: Qkv)
        requires
            layout_of(self.config@).query_size() + 2 * layout_of(self.config@).row()
                <= fused@.len(),
        ensures
            ({
                let l = layout_of(self.config@);
                &&& r.query@ == fused@.subrange(0, l.query_size())
                &&& r.key@ == fused@.subrange(l.query_size(), l.query_size() + l.row())
                &&& r.value@ == fused@.subrange(
                    l.query_size() + l.row(),
                    l.query_size() + 2 * l.row(),
                )
            }),
    {
        head_layout(&self.config).split_qkv(fused)
    }

    /// The rotations of a head at a position, where the table reaches it. Only
    /// the leading elements of a head are rotated.
    pub fn rotations(&self, position: usize) -> (r: Option<Vec<Rotation>>)
        requires
            self.rope.half() == self.rope_dims / 2,
            self.rope_dims >= 2,
        ensures
            r is Some <==> position < self.rope.positions(),
            r matches Some(rs) ==> are_pairs(
                rs@,
                (self.rope_dims / 2) as int,
                0,
                (self.rope_dims / 2) as int,
                position * (self.rope_dims / 2),
            ),
    {
        self.rope.apply(self.rope_dims, position)
    }

    /// Plans what the heads read when a token attends: all positions up to its
    /// own.
    pub fn attention(&self, position: usize) -> (plan: Vec<CausalReads>)
        requires
            self.config.num_kv_heads > 0,
            can_attend(layout_of(self.config@), position as int),
        ensures
            attends(plan@, layout_of(self.config@), position as int, None),
    {
        plan_attention(&head_layout(&self.config), position, None)
    }

    /// Begins a pass after `cached` tokens; `None` where the embedding table has
    /// no row for a token.
    pub fn forward(&self, tokens: &Vec<u32>, cached: usize) -> (r: Option<Pass>)
        requires
            cached + tokens@.len() <= usize::MAX,
        ensures
            r is Some <==> all_have_rows(self.token_embd@, self.config.hidden_size as nat, tokens@),
            r matches Some(p) ==> p.begins(
                Order::TokenByToken,
                self.layers@.len(),
                cached as nat,
                self.token_embd@,
                self.config.hidden_size as nat,
                tokens@,
            ),
    {
        begin_token_pass(
            &self.token_embd,
            self.config.hidden_size,
            tokens,
            self.layers.len(),
            cached,
        )
    }

    /// Begins a pass that ends in the normed hidden state of the last token,
    /// before the output projection.
    pub fn embed(&self, tokens: &Vec<u32>, cached: usize) -> (r: Option<Pass>)
        requires
            cached + tokens@.len() <= usize::MAX,
        ensures
            r is Some <==> all_have_rows(self.token_embd@, self.config.hidden_size as nat, tokens@),
            r matches Some(p) ==> p.begins(
                Order::TokenByToken,
                self.layers@.len(),
                cached as nat,
                self.token_embd@,
                self.config.hidden_size as nat,
                tokens@,
            ),
    {
        self.forward(tokens, cached)
    }

    /// Number of tokens in the vocabulary: the length of the logits.
    pub fn vocab_size(&self) -> (n: usize)
        ensures
            n == self.config.vocab_size,
    {
        self.config.vocab_size
    }

    /// Greatest number of tokens in a context.
    pub fn max_context_length(&self) -> (n: usize)
        ensures
            n == self.config.max_context_length,
    {
        self.config.max_context_length
    }

    /// Size of a hidden state: the length of an embedding.
    pub fn hidden_size(&self) -> (n: usize)
        ensures
            n == self.config.hidden_size,
    {
        self.config.hidden_size
    }
}

/// The rotary factor that metadata gives: the fraction of a head that is
/// rotated, as a pattern; one half where it gives none.
pub fn rotary_factor(metadata: &MetadataStore, config: &ModelConfig) -> (b: u32)
    ensures
        b == bits_or(
            metadata@,
            config.architecture@ + ".rope.partial_rotary_factor"@,
            F32_HALF,
        ),
{
    metadata.f32_or(
        joined(config.architecture.as_str(), ".rope.partial_rotary_factor").as_str(),
        F32_HALF,
    )
}

/// Why block `i` cannot be loaded, if it cannot.
pub open spec fn layer_failure(m: TensorMap, i: nat) -> Option<ArchErrorView> {
    first_of(
        values_failure(m, block_tensor(i, ".attn_norm.weight"@)),
        first_of(
            values_failure(m, block_tensor(i, ".ffn_norm.weight"@)),
            first_of(
                bytes_failure(m, block_tensor(i, ".attn_qkv.weight"@)),
                first_of(
                    bytes_failure(m, block_tensor(i, ".attn_output.weight"@)),
                    first_of(
                        bytes_failure(m, block_tensor(i, ".ffn_gate.weight"@)),
                        first_of(
                            bytes_failure(m, block_tensor(i, ".ffn_up.weight"@)),
                            bytes_failure(m, block_tensor(i, ".ffn_down.weight"@)),
                        ),
                    ),
                ),
            ),
        ),
    )
}

/// The failures of the blocks.
pub open spec fn layer_failures(m: TensorMap) -> spec_fn(nat) -> Option<ArchErrorView> {
    |i: nat| layer_failure(m, i)
}

/// Why a model cannot be loaded, if it cannot.
pub open spec fn phi_failure(m: TensorMap, layers: nat) -> Option<ArchErrorView> {
    first_of(
        embedding_failure(m, "token_embd.weight"@),
        first_of(
            first_failure(layer_failures(m), layers),
            first_of(
                values_failure(m, "output_norm.weight"@),
                bytes_failure(m, "output.weight"@),
            ),
        ),
    )
}

/// Whether a layer holds the tensors of block `i`.
pub open spec fn is_layer(l: PhiLayer, m: TensorMap, eps: u32, i: nat) -> bool {
    &&& is_norm(l.attn_norm, m, block_tensor(i, ".attn_norm.weight"@), eps)
    &&& is_norm(l.ffn_norm, m, block_tensor(i, ".ffn_norm.weight"@), eps)
    &&& is_linear(l.attn_qkv, m, block_tensor(i, ".attn_qkv.weight"@))
    &&& is_linear(l.attn_output, m, block_tensor(i, ".attn_output.weight"@))
    &&& is_linear(l.ffn_gate, m, block_tensor(i, ".ffn_gate.weight"@))
    &&& is_linear(l.ffn_up, m, block_tensor(i, ".ffn_up.weight"@))
    &&& is_linear(l.ffn_down, m, block_tensor(i, ".ffn_down.weight"@))
}

/// Whether a model holds the tensors of a file.
pub open spec fn is_phi(
    model: PhiModel,
    m: TensorMap,
    c: ModelConfigView,
    rotary_dims: usize,
) -> bool {
    &&& model.config@ == c
    &&& model.token_embd@ == values_of(m, "token_embd.weight"@)
    &&& model.layers@.len() == c.num_layers
    &&& forall|i: int|
        0 <= i < model.layers@.len() ==> is_layer(
            #[trigger] model.layers@[i],
            m,
            c.rms_norm_eps,
            i as nat,
        )
    &&& is_norm(model.output_norm, m, "output_norm.weight"@, c.rms_norm_eps)
    &&& is_linear(model.output, m, "output.weight"@)
    &&& model.rope_dims == rope_dims_of(rotary_dims)
    &&& model.rope.is_table(
        rope_dims_of(rotary_dims),
        c.max_context_length as nat,
        standard(c.rope_freq_base),
    )
}

fn load_layer(model: &GgufModel, i: usize, eps: u32) -> (r: ArchResult<PhiLayer>)
    ensures
        follows(r, layer_failure(model.tensors@, i as nat)),
        r matches Ok(l) ==> is_layer(l, model.tensors@, eps, i as nat),
{
    let attn_norm = load_rms_norm(model, block_name(i, ".attn_norm.weight").as_str(), eps)?;
    let ffn_norm = load_rms_norm(model, block_name(i, ".ffn_norm.weight").as_str(), eps)?;
    let attn_qkv = load_quant_linear(model, block_name(i, ".attn_qkv.weight").as_str())?;
    let attn_output = load_quant_linear(model, block_name(i, ".attn_output.weight").as_str())?;
    let ffn_gate = load_quant_linear(model, block_name(i, ".ffn_gate.weight").as_str())?;
    let ffn_up = load_quant_linear(model, block_name(i, ".ffn_up.weight").as_str())?;
    let ffn_down = load_quant_linear(model, block_name(i, ".ffn_down.weight").as_str())?;
    Ok(PhiLayer { attn_norm, attn_qkv, attn_output, ffn_norm, ffn_gate, ffn_up, ffn_down })
}

/// Loads a model: every tensor by its name. `rotary_dims` is the whole part of
/// the head size times the rotary factor.
pub fn load_phi_from_gguf(
    model: &GgufModel,
    config: &ModelConfig,
    rotary_dims: usize,
) -> (r: ArchResult<PhiModel>)
    requires
        config.max_context_length * (rope_dims_of(rotary_dims) / 2) <= usize::MAX,
    ensures
        follows(r, phi_failure(model.tensors@, config.num_layers as nat)),
        r matches Ok(p) ==> is_phi(p, model.tensors@, config@, rotary_dims),
{
    let token_embd = load_embedding(model, "token_embd.weight")?;
    let ghost failures = layer_failures(model.tensors@);
    let mut layers: Vec<PhiLayer> = Vec::new();
    let mut i: usize = 0;
    while i < config.num_layers
        invariant
            i <= config.num_layers,
            failures == layer_failures(model.tensors@),
            embedding_failure(model.tensors@, "token_embd.weight"@) is None,
            first_failure(failures, i as nat) is None,
            layers@.len() == i,
            forall|j: int|
                0 <= j < i ==> is_layer(
                    #[trigger] layers@[j],
                    model.tensors@,
                    config.rms_norm_eps,
                    j as nat,
                ),
        decreases config.num_layers - i,
    {
        match load_layer(model, i, config.rms_norm_eps) {
            Ok(l) => {
                layers.push(l);
            },
            Err(e) => {
                proof {
                    lemma_first_failure(failures, i as nat, config.num_layers as nat);
                }
                return Err(e);
            },
        }
        i = i + 1;
    }
    let output_norm = load_rms_norm(model, "output_norm.weight", config.rms_norm_eps)?;
    let output = load_quant_linear(model, "output.weight")?;
    Ok(PhiModel::new(config.duplicate(), token_embd, layers, output_norm, output, rotary_dims))
}

/// A projection's output is its query, its key and its value, put in a row:
/// splitting it loses nothing.
pub proof fn law_split_keeps_all(fused: Seq<u32>, q: int, kv: int)
    requires
        0 <= q,
        0 <= kv,
        fused.len() == q + 2 * kv,
    ensures
        fused.subrange(0, q) + fused.subrange(q, q + kv) + fused.subrange(q + kv, q + 2 * kv)
            == fused,
{
    assert(fused.subrange(0, q) + fused.subrange(q, q + kv) + fused.subrange(
        q + kv,
        q + 2 * kv,
    ) =~= fused);
}

/// In a loaded model every weight is that of the tensor that is named after it:
/// `blk.{i}` and the name of the part for layer `i`, and the bare name for the
/// parts that the layers share.
pub proof fn law_tensors_are_where_their_names_say(
    model: PhiModel,
    m: TensorMap,
    c: ModelConfigView,
    rotary_dims: usize,
    i: int,
)
    requires
        is_phi(model, m, c, rotary_dims),
        0 <= i < model.layers@.len(),
    ensures
        model.layers@[i].attn_norm.weight@
            == m["blk."@ + decimal(i as nat) + ".attn_norm.weight"@].decode()->Ok_0,
        model.layers@[i].attn_norm.eps == c.rms_norm_eps,
        model.layers@[i].ffn_norm.weight@
            == m["blk."@ + decimal(i as nat) + ".ffn_norm.weight"@].decode()->Ok_0,
        model.layers@[i].ffn_norm.eps == c.rms_norm_eps,
        m["blk."@ + decimal(i as nat) + ".attn_qkv.weight"@].bytes()
            == Some(model.layers@[i].attn_qkv.weight.data@),
        model.layers@[i].attn_qkv.weight.shape@
            == m["blk."@ + decimal(i as nat) + ".attn_qkv.weight"@].dims(),
        model.layers@[i].attn_qkv.weight.tensor_type
            == m["blk."@ + decimal(i as nat) + ".attn_qkv.weight"@].kind(),
        model.layers@[i].attn_qkv.lora is None,
        model.layers@[i].attn_qkv.bias is None,
        m["blk."@ + decimal(i as nat) + ".attn_output.weight"@].bytes()
            == Some(model.layers@[i].attn_output.weight.data@),
        model.layers@[i].attn_output.weight.shape@
            == m["blk."@ + decimal(i as nat) + ".attn_output.weight"@].dims(),
        model.layers@[i].attn_output.weight.tensor_type
            == m["blk."@ + decimal(i as nat) + ".attn_output.weight"@].kind(),
        model.layers@[i].attn_output.lora is None,
        model.layers@[i].attn_output.bias is None,
        m["blk."@ + decimal(i as nat) + ".ffn_gate.weight"@].bytes()
            == Some(model.layers@[i].ffn_gate.weight.data@),
        model.layers@[i].ffn_gate.weight.shape@
            == m["blk."@ + decimal(i as nat) + ".ffn_gate.weight"@].dims(),
        model.layers@[i].ffn_gate.weight.tensor_type
            == m["blk."@ + decimal(i as nat) + ".ffn_gate.weight"@].kind(),
        model.layers@[i].ffn_gate.lora is None,
        model.layers@[i].ffn_gate.bias is None,
        m["blk."@ + decimal(i as nat) + ".ffn_up.weight"@].bytes()
            == Some(model.layers@[i].ffn_up.weight.data@),
        model.layers@[i].ffn_up.weight.shape@
            == m["blk."@ + decimal(i as nat) + ".ffn_up.weight"@].dims(),
        model.layers@[i].ffn_up.weight.tensor_type
            == m["blk."@ + decimal(i as nat) + ".ffn_up.weight"@].kind(),
        model.layers@[i].ffn_up.lora is None,
        model.layers@[i].ffn_up.bias is None,
        m["blk."@ + decimal(i as nat) + ".ffn_down.weight"@].bytes()
            == Some(model.layers@[i].ffn_down.weight.data@),
        model.layers@[i].ffn_down.weight.shape@
            == m["blk."@ + decimal(i as nat) + ".ffn_down.weight"@].dims(),
        model.layers@[i].ffn_down.weight.tensor_type
            == m["blk."@ + decimal(i as nat) + ".ffn_down.weight"@].kind(),
        model.layers@[i].ffn_down.lora is None,
        model.layers@[i].ffn_down.bias is None,
        model.layers@.len() == c.num_layers,
        model.token_embd@ == m["token_embd.weight"@].decode()->Ok_0,
        model.output_norm.weight@ == m["output_norm.weight"@].decode()->Ok_0,
        model.output_norm.eps == c.rms_norm_eps,
        m["output.weight"@].bytes() == Some(model.output.weight.data@),
        model.output.weight.shape@ == m["output.weight"@].dims(),
        model.output.weight.tensor_type == m["output.weight"@].kind(),
        model.output.lora is None,
        model.output.bias is None,
        rotary_dims >= 2 ==> model.rope_dims == rotary_dims,
        rotary_dims < 2 ==> model.rope_dims == 2,
        model.rope.half() == model.rope_dims / 2,
        model.rope.positions() == c.max_context_length,
        model.rope.rule().base == c.rope_freq_base,
{
    assert(is_layer(model.layers@[i], m, c.rms_norm_eps, i as nat));
}

/// A model loads exactly where every tensor that it needs is there and can be had:
/// those that the layers share, and those of each of its layers.
#[verifier::rlimit(40)]
pub proof fn law_model_loads_where_its_tensors_are_there(m: TensorMap, layers: nat)
    ensures
        phi_failure(m, layers) is None <==> {
            &&& embedding_failure(m, "token_embd.weight"@) is None
            &&& forall|i: nat|
                #![trigger decimal(i)]
                i < layers ==> {
                    &&& values_failure(m, "blk."@ + decimal(i) + ".attn_norm.weight"@) is None
                    &&& values_failure(m, "blk."@ + decimal(i) + ".ffn_norm.weight"@) is None
                    &&& bytes_failure(m, "blk."@ + decimal(i) + ".attn_qkv.weight"@) is None
                    &&& bytes_failure(m, "blk."@ + decimal(i) + ".attn_output.weight"@) is None
                    &&& bytes_failure(m, "blk."@ + decimal(i) + ".ffn_gate.weight"@) is None
                    &&& bytes_failure(m, "blk."@ + decimal(i) + ".ffn_up.weight"@) is None
                    &&& bytes_failure(m, "blk."@ + decimal(i) + ".ffn_down.weight"@) is None
                }
            &&& values_failure(m, "output_norm.weight"@) is None
            &&& bytes_failure(m, "output.weight"@) is None
        },
{
    let f = layer_failures(m);
    let n = layers as nat;
    law_first_failing_part_is_reported(f, n);
    assert forall|i: nat|
        #![trigger decimal(i)]
        i < n && first_failure(f, n) is None implies {
        &&& values_failure(m, "blk."@ + decimal(i) + ".attn_norm.weight"@) is None
        &&& values_failure(m, "blk."@ + decimal(i) + ".ffn_norm.weight"@) is None
        &&& bytes_failure(m, "blk."@ + decimal(i) + ".attn_qkv.weight"@) is None
        &&& bytes_failure(m, "blk."@ + decimal(i) + ".attn_output.weight"@) is None
        &&& bytes_failure(m, "blk."@ + decimal(i) + ".ffn_gate.weight"@) is None
        &&& bytes_failure(m, "blk."@ + decimal(i) + ".ffn_up.weight"@) is None
        &&& bytes_failure(m, "blk."@ + decimal(i) + ".ffn_down.weight"@) is None
    } by {
        assert(f(i) is None);
        assert(layer_failure(m, i) is None);
    }
    if forall|i: nat|
        #![trigger decimal(i)]
        i < n ==> {
            &&& values_failure(m, "blk."@ + decimal(i) + ".attn_norm.weight"@) is None
            &&& values_failure(m, "blk."@ + decimal(i) + ".ffn_norm.weight"@) is None
            &&& bytes_failure(m, "blk."@ + decimal(i) + ".attn_qkv.weight"@) is None
            &&& bytes_failure(m, "blk."@ + decimal(i) + ".attn_output.weight"@) is None
            &&& bytes_failure(m, "blk."@ + decimal(i) + ".ffn_gate.weight"@) is None
            &&& bytes_failure(m, "blk."@ + decimal(i) + ".ffn_up.weight"@) is None
            &&& bytes_failure(m, "blk."@ + decimal(i) + ".ffn_down.weight"@) is None
        } {
        assert forall|i: nat| i < n implies (#[trigger] f(i)) is None by {
            let d = decimal(i);
            assert(layer_failure(m, i) is None);
        }
    }
}

/// Of the tensors of a block the first that cannot be had, in the order of loading,
/// is the one that is reported.
pub proof fn law_first_missing_part_of_a_block_is_reported(m: TensorMap, layers: nat, i: nat)
    ensures
        values_failure(m, "blk."@ + decimal(i) + ".attn_norm.weight"@) is Some
            ==> layer_failure(m, i)
            == values_failure(m, "blk."@ + decimal(i) + ".attn_norm.weight"@),
        values_failure(m, "blk."@ + decimal(i) + ".attn_norm.weight"@) is None
            && values_failure(m, "blk."@ + decimal(i) + ".ffn_norm.weight"@) is Some
            ==> layer_failure(m, i)
            == values_failure(m, "blk."@ + decimal(i) + ".ffn_norm.weight"@),
        values_failure(m, "blk."@ + decimal(i) + ".attn_norm.weight"@) is None
            && values_failure(m, "blk."@ + decimal(i) + ".ffn_norm.weight"@) is None
            && bytes_failure(m, "blk."@ + decimal(i) + ".attn_qkv.weight"@) is Some
            ==> layer_failure(m, i) == bytes_failure(m, "blk."@ + decimal(i) + ".attn_qkv.weight"@),
        values_failure(m, "blk."@ + decimal(i) + ".attn_norm.weight"@) is None
            && values_failure(m, "blk."@ + decimal(i) + ".ffn_norm.weight"@) is None
            && bytes_failure(m, "blk."@ + decimal(i) + ".attn_qkv.weight"@) is None
            && bytes_failure(m, "blk."@ + decimal(i) + ".attn_output.weight"@) is Some
            ==> layer_failure(m, i)
            == bytes_failure(m, "blk."@ + decimal(i) + ".attn_output.weight"@),
        values_failure(m, "blk."@ + decimal(i) + ".attn_norm.weight"@) is None
            && values_failure(m, "blk."@ + decimal(i) + ".ffn_norm.weight"@) is None
            && bytes_failure(m, "blk."@ + decimal(i) + ".attn_qkv.weight"@) is None
            && bytes_failure(m, "blk."@ + decimal(i) + ".attn_output.weight"@) is None
            && bytes_failure(m, "blk."@ + decimal(i) + ".ffn_gate.weight"@) is Some
            ==> layer_failure(m, i) == bytes_failure(m, "blk."@ + decimal(i) + ".ffn_gate.weight"@),
        values_failure(m, "blk."@ + decimal(i) + ".attn_norm.weight"@) is None
            && values_failure(m, "blk."@ + decimal(i) + ".ffn_norm.weight"@) is None
            && bytes_failure(m, "blk."@ + decimal(i) + ".attn_qkv.weight"@) is None
            && bytes_failure(m, "blk."@ + decimal(i) + ".attn_output.weight"@) is None
            && bytes_failure(m, "blk."@ + decimal(i) + ".ffn_gate.weight"@) is None
            && bytes_failure(m, "blk."@ + decimal(i) + ".ffn_up.weight"@) is Some
            ==> layer_failure(m, i) == bytes_failure(m, "blk."@ + decimal(i) + ".ffn_up.weight"@),
        values_failure(m, "blk."@ + decimal(i) + ".attn_norm.weight"@) is None
            && values_failure(m, "blk."@ + decimal(i) + ".ffn_norm.weight"@) is None
            && bytes_failure(m, "blk."@ + decimal(i) + ".attn_qkv.weight"@) is None
            && bytes_failure(m, "blk."@ + decimal(i) + ".attn_output.weight"@) is None
            && bytes_failure(m, "blk."@ + decimal(i) + ".ffn_gate.weight"@) is None
            && bytes_failure(m, "blk."@ + decimal(i) + ".ffn_up.weight"@) is None
            && bytes_failure(m, "blk."@ + decimal(i) + ".ffn_down.weight"@) is Some
            ==> layer_failure(m, i) == bytes_failure(m, "blk."@ + decimal(i) + ".ffn_down.weight"@),
{
}

/// What is reported of a model is the first failure in the order of loading: the
/// embedding table, then one block after another, then what follows the blocks.
pub proof fn law_blocks_are_loaded_in_order(m: TensorMap, layers: nat, k: nat)
    ensures
        embedding_failure(m, "token_embd.weight"@) is Some
            ==> phi_failure(m, layers) == embedding_failure(m, "token_embd.weight"@),
        embedding_failure(m, "token_embd.weight"@) is None && k < layers
            && layer_failure(m, k) is Some && (forall|j: nat|
            #![trigger decimal(j)]
            j < k ==> layer_failure(m, j) is None)
                ==> phi_failure(m, layers) == layer_failure(m, k),
{
    let f = layer_failures(m);
    law_first_failing_part_is_reported(f, layers as nat);
    if k < layers && layer_failure(m, k) is Some && (forall|j: nat|
        #![trigger decimal(j)]
        j < k ==> layer_failure(m, j) is None) {
        assert(f(k) is Some);
        assert forall|j: nat| j < k implies (#[trigger] f(j)) is None by {
            let d = decimal(j);
        }
    }
}

} // verus!
