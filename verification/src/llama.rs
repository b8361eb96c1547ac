//! LLaMA: a dense or sparse decoder.

use crate::common::embedding::{all_have_rows, embedding_row, has_row, row_of};
use crate::common::experts::{
    is_stack_of, load_expert_stack, router_name, stack_failure, ExpertStack,
};
use crate::common::heads::{
    attends, can_attend, head_layout, layout_of, plan_attention, CausalReads,
};
use crate::common::linear::{LoadedLora, LoraAdapter, QuantLinear};
use crate::common::load::{
    bytes_failure, embedding_failure, is_linear, is_norm, load_embedding, load_quant_linear,
    load_rms_norm, values_failure, values_of,
};
use crate::common::moe::MoeFfn;
use crate::common::norm::RmsNorm;
use crate::common::pass::{begin_token_pass, Order, Pass};
use crate::common::rope::{Frequencies, RopeTable};
use crate::config::{ModelConfig, ModelConfigView};
use crate::error::{
    first_failure, first_of, follows, law_first_failing_part_is_reported, lemma_first_failure,
    ArchErrorView, ArchResult,
};
use crate::gguf::{GgufModel, TensorMap};
use crate::text::{block_name, block_tensor, decimal, law_block_tensors_are_distinct};
use std::sync::Arc;
use vstd::prelude::*;

verus! {

/// The weights of a dense feed-forward network.
#[derive(Debug)]
pub struct DenseFfn {
    /// Gate projection.
    pub gate: QuantLinear,
    /// Up projection.
    pub up: QuantLinear,
    /// Down projection.
    pub down: QuantLinear,
}

/// The feed-forward network of a layer.
#[derive(Debug)]
pub enum FfnVariant {
    /// A dense network.
    Dense(Box<DenseFfn>),
    /// Experts.
    Moe(Box<MoeFfn>),
}

/// The weights of one layer.
#[derive(Debug)]
pub struct LlamaLayer {
    /// Norm before attention.
    pub attn_norm: RmsNorm,
    /// Query projection.
    pub attn_q: QuantLinear,
    /// Key projection.
    pub attn_k: QuantLinear,
    /// Value projection.
    pub attn_v: QuantLinear,
    /// Output projection of attention.
    pub attn_output: QuantLinear,
    /// Norm before the feed-forward network.
    pub ffn_norm: RmsNorm,
    /// The feed-forward network.
    pub ffn: FfnVariant,
}

/// A loaded model.
#[derive(Debug)]
pub struct LlamaModel {
    /// The configuration.
    pub config: ModelConfig,
    /// The embedding table, one row for each token.
    pub token_embd: Vec<u32>,
    /// The layers.
    pub layers: Vec<LlamaLayer>,
    /// Norm before the output projection.
    pub output_norm: RmsNorm,
    /// Output projection.
    pub output: QuantLinear,
}

/// Why the feed-forward network of block `i` cannot be loaded, if it cannot.
pub open spec fn ffn_failure(m: TensorMap, c: ModelConfigView, i: nat) -> Option<ArchErrorView> {
    if c.num_experts > 0 {
        stack_failure(m, i, c.num_experts, c.intermediate_size, c.hidden_size)
    } else {
        first_of(
            bytes_failure(m, block_tensor(i, ".ffn_gate.weight"@)),
            first_of(
                bytes_failure(m, block_tensor(i, ".ffn_up.weight"@)),
                bytes_failure(m, block_tensor(i, ".ffn_down.weight"@)),
            ),
        )
    }
}

/// Why block `i` cannot be loaded, if it cannot.
pub open spec fn layer_failure(m: TensorMap, c: ModelConfigView, i: nat) -> Option<ArchErrorView> {
    first_of(
        values_failure(m, block_tensor(i, ".attn_norm.weight"@)),
        first_of(
            values_failure(m, block_tensor(i, ".ffn_norm.weight"@)),
            first_of(
                bytes_failure(m, block_tensor(i, ".attn_q.weight"@)),
                first_of(
                    bytes_failure(m, block_tensor(i, ".attn_k.weight"@)),
                    first_of(
                        bytes_failure(m, block_tensor(i, ".attn_v.weight"@)),
                        first_of(
                            bytes_failure(m, block_tensor(i, ".attn_output.weight"@)),
                            ffn_failure(m, c, i),
                        ),
                    ),
                ),
            ),
        ),
    )
}

/// The failures of the blocks.
pub open spec fn layer_failures(m: TensorMap, c: ModelConfigView) -> spec_fn(nat) -> Option<
    ArchErrorView,
> {
    |i: nat| layer_failure(m, c, i)
}

/// Why a model cannot be loaded, if it cannot: the first tensor, in the order
/// of loading, that is not there or not as it should be.
pub open spec fn llama_failure(m: TensorMap, c: ModelConfigView) -> Option<ArchErrorView> {
    first_of(
        embedding_failure(m, "token_embd.weight"@),
        first_of(
            first_failure(layer_failures(m, c), c.num_layers as nat),
            first_of(
                values_failure(m, "output_norm.weight"@),
                bytes_failure(m, "output.weight"@),
            ),
        ),
    )
}

/// The number of experts that one token passes: at least one.
pub open spec fn experts_used(c: ModelConfigView) -> usize {
    if c.num_experts_used == 0 {
        1
    } else {
        c.num_experts_used
    }
}

/// Whether a feed-forward network holds the tensors of block `i`: experts if
/// the model has any, and a dense network otherwise.
pub open spec fn is_ffn(f: FfnVariant, m: TensorMap, c: ModelConfigView, i: nat) -> bool {
    match f {
        FfnVariant::Dense(d) => {
            &&& c.num_experts == 0
            &&& is_linear(d.gate, m, block_tensor(i, ".ffn_gate.weight"@))
            &&& is_linear(d.up, m, block_tensor(i, ".ffn_up.weight"@))
            &&& is_linear(d.down, m, block_tensor(i, ".ffn_down.weight"@))
        },
        FfnVariant::Moe(x) => {
            &&& c.num_experts > 0
            &&& is_stack_of(
                ExpertStack { router: x.router, experts: x.experts },
                m,
                i,
                c.num_experts,
                c.intermediate_size,
                c.hidden_size,
            )
            &&& x.top_k == experts_used(c)
            &&& x.num_experts == c.num_experts
            &&& x.hidden_size == c.hidden_size
        },
    }
}

/// Whether a layer holds the tensors of block `i`.
pub open spec fn is_layer(l: LlamaLayer, m: TensorMap, c: ModelConfigView, i: nat) -> bool {
    &&& is_norm(l.attn_norm, m, block_tensor(i, ".attn_norm.weight"@), c.rms_norm_eps)
    &&& is_norm(l.ffn_norm, m, block_tensor(i, ".ffn_norm.weight"@), c.rms_norm_eps)
    &&& is_linear(l.attn_q, m, block_tensor(i, ".attn_q.weight"@))
    &&& is_linear(l.attn_k, m, block_tensor(i, ".attn_k.weight"@))
    &&& is_linear(l.attn_v, m, block_tensor(i, ".attn_v.weight"@))
    &&& is_linear(l.attn_output, m, block_tensor(i, ".attn_output.weight"@))
    &&& is_ffn(l.ffn, m, c, i)
}

/// Whether a model holds the tensors of a file.
pub open spec fn is_llama(model: LlamaModel, m: TensorMap, c: ModelConfigView) -> bool {
    &&& model.config@ == c
    &&& model.token_embd@ == values_of(m, "token_embd.weight"@)
    &&& model.layers@.len() == c.num_layers
    &&& forall|i: int|
        0 <= i < model.layers@.len() ==> is_layer(#[trigger] model.layers@[i], m, c, i as nat)
    &&& is_norm(model.output_norm, m, "output_norm.weight"@, c.rms_norm_eps)
    &&& is_linear(model.output, m, "output.weight"@)
}

/// Loads the experts of block `i`.
pub fn load_moe_ffn(
    model: &GgufModel,
    i: usize,
    config: &ModelConfig,
) -> (r: ArchResult<FfnVariant>)
    requires
        config.num_experts > 0,
    ensures
        follows(r, ffn_failure(model.tensors@, config@, i as nat)),
        r matches Ok(f) ==> is_ffn(f, model.tensors@, config@, i as nat),
{
    let top_k: usize = if config.num_experts_used == 0 {
        1
    } else {
        config.num_experts_used
    };
    let stack = load_expert_stack(
        model,
        i,
        config.num_experts,
        config.intermediate_size,
        config.hidden_size,
    )?;
    Ok(
        FfnVariant::Moe(
            Box::new(
                MoeFfn {
                    router: stack.router,
                    experts: stack.experts,
                    top_k,
                    num_experts: config.num_experts,
                    hidden_size: config.hidden_size,
                },
            ),
        ),
    )
}

fn load_ffn(model: &GgufModel, i: usize, config: &ModelConfig) -> (r: ArchResult<FfnVariant>)
    ensures
        follows(r, ffn_failure(model.tensors@, config@, i as nat)),
        r matches Ok(f) ==> is_ffn(f, model.tensors@, config@, i as nat),
{
    if config.num_experts > 0 {
        return load_moe_ffn(model, i, config);
    }
    let gate = load_quant_linear(model, block_name(i, ".ffn_gate.weight").as_str())?;
    let up = load_quant_linear(model, block_name(i, ".ffn_up.weight").as_str())?;
    let down = load_quant_linear(model, block_name(i, ".ffn_down.weight").as_str())?;
    Ok(FfnVariant::Dense(Box::new(DenseFfn { gate, up, down })))
}

fn load_layer(model: &GgufModel, i: usize, config: &ModelConfig) -> (r: ArchResult<LlamaLayer>)
    ensures
        follows(r, layer_failure(model.tensors@, config@, i as nat)),
        r matches Ok(l) ==> is_layer(l, model.tensors@, config@, i as nat),
{
    let eps: u32 = config.rms_norm_eps;
    let attn_norm = load_rms_norm(model, block_name(i, ".attn_norm.weight").as_str(), eps)?;
    let ffn_norm = load_rms_norm(model, block_name(i, ".ffn_norm.weight").as_str(), eps)?;
    let attn_q = load_quant_linear(model, block_name(i, ".attn_q.weight").as_str())?;
    let attn_k = load_quant_linear(model, block_name(i, ".attn_k.weight").as_str())?;
    let attn_v = load_quant_linear(model, block_name(i, ".attn_v.weight").as_str())?;
    let attn_output = load_quant_linear(model, block_name(i, ".attn_output.weight").as_str())?;
    let ffn = load_ffn(model, i, config)?;
    Ok(LlamaLayer { attn_norm, attn_q, attn_k, attn_v, attn_output, ffn_norm, ffn })
}

/// Loads a model: every tensor by its name.
pub fn load_llama_from_gguf(model: &GgufModel, config: &ModelConfig) -> (r: ArchResult<LlamaModel>)
    ensures
        follows(r, llama_failure(model.tensors@, config@)),
        r matches Ok(l) ==> is_llama(l, model.tensors@, config@),
{
    let token_embd = load_embedding(model, "token_embd.weight")?;
    let ghost failures = layer_failures(model.tensors@, config@);
    let mut layers: Vec<LlamaLayer> = Vec::new();
    let mut i: usize = 0;
    while i < config.num_layers
        invariant
            i <= config.num_layers,
            failures == layer_failures(model.tensors@, config@),
            embedding_failure(model.tensors@, "token_embd.weight"@) is None,
            first_failure(failures, i as nat) is None,
            layers@.len() == i,
            forall|j: int|
                0 <= j < i ==> is_layer(
                    #[trigger] layers@[j],
                    model.tensors@,
                    config@,
                    j as nat,
                ),
        decreases config.num_layers - i,
    {
        match load_layer(model, i, config) {
            Ok(l) => {
                layers.push(l);
            },
            Err(e) => {
                proof {
                    lemma_first_failure(failures, i as nat, config.num_layers as nat);
                }
                return Err(e);
            },
        }
        i = i + 1;
    }
    let output_norm = load_rms_norm(model, "output_norm.weight", config.rms_norm_eps)?;
    let output = load_quant_linear(model, "output.weight")?;
    Ok(LlamaModel::new(config.duplicate(), token_embd, layers, output_norm, output))
}

/// Whether one layer becomes another when adapters are applied to block `i`:
/// the attention projections and the projections of a dense network take the
/// adapters under their tensors' names, and nothing else changes.
pub open spec fn layer_patched(
    a: LlamaLayer,
    b: LlamaLayer,
    adapters: Map<Seq<char>, Arc<LoraAdapter>>,
    i: nat,
) -> bool {
    &&& b.attn_norm == a.attn_norm
    &&& b.ffn_norm == a.ffn_norm
    &&& linear_patched(a.attn_q, b.attn_q, adapters, block_tensor(i, ".attn_q.weight"@))
    &&& linear_patched(a.attn_k, b.attn_k, adapters, block_tensor(i, ".attn_k.weight"@))
    &&& linear_patched(a.attn_v, b.attn_v, adapters, block_tensor(i, ".attn_v.weight"@))
    &&& linear_patched(
        a.attn_output,
        b.attn_output,
        adapters,
        block_tensor(i, ".attn_output.weight"@),
    )
    &&& ffn_patched(a.ffn, b.ffn, adapters, i)
}

/// Whether one linear layer becomes another when adapters are applied.
pub open spec fn linear_patched(
    a: QuantLinear,
    b: QuantLinear,
    adapters: Map<Seq<char>, Arc<LoraAdapter>>,
    tensor: Seq<char>,
) -> bool {
    b.same_but_lora(&a) && b.lora == a.lora_after(adapters, tensor)
}

/// Whether one model becomes another when adapters are applied: every layer and
/// the output projection take theirs, and nothing else changes.
pub open spec fn model_patched(
    a: LlamaModel,
    b: LlamaModel,
    adapters: Map<Seq<char>, Arc<LoraAdapter>>,
) -> bool {
    &&& b.config == a.config
    &&& b.token_embd == a.token_embd
    &&& b.output_norm == a.output_norm
    &&& linear_patched(a.output, b.output, adapters, "output.weight"@)
    &&& b.layers@.len() == a.layers@.len()
    &&& forall|i: int|
        0 <= i < b.layers@.len() ==> layer_patched(
            a.layers@[i],
            #[trigger] b.layers@[i],
            adapters,
            i as nat,
        )
}

/// Whether one feed-forward network becomes another when adapters are applied.
pub open spec fn ffn_patched(
    a: FfnVariant,
    b: FfnVariant,
    adapters: Map<Seq<char>, Arc<LoraAdapter>>,
    i: nat,
) -> bool {
    match a {
        FfnVariant::Dense(x) => {
            &&& b matches FfnVariant::Dense(y)
            &&& linear_patched(x.gate, y.gate, adapters, block_tensor(i, ".ffn_gate.weight"@))
            &&& linear_patched(x.up, y.up, adapters, block_tensor(i, ".ffn_up.weight"@))
            &&& linear_patched(x.down, y.down, adapters, block_tensor(i, ".ffn_down.weight"@))
        },
        FfnVariant::Moe(_) => b == a,
    }
}

impl LlamaLayer {
    fn apply_lora(&mut self, lora: &LoadedLora, i: usize)
        ensures
            layer_patched(*old(self), *final(self), lora@, i as nat),
    {
        self.attn_q.patch(lora, block_name(i, ".attn_q.weight").as_str());
        self.attn_k.patch(lora, block_name(i, ".attn_k.weight").as_str());
        self.attn_v.patch(lora, block_name(i, ".attn_v.weight").as_str());
        self.attn_output.patch(lora, block_name(i, ".attn_output.weight").as_str());
        match &mut self.ffn {
            FfnVariant::Dense(dense) => {
                dense.gate.patch(lora, block_name(i, ".ffn_gate.weight").as_str());
                dense.up.patch(lora, block_name(i, ".ffn_up.weight").as_str());
                dense.down.patch(lora, block_name(i, ".ffn_down.weight").as_str());
            },
            FfnVariant::Moe(_) => {},
        }
    }
}

impl LlamaModel {
    /// A model of given weights.
    pub fn new(
        config: ModelConfig,
        token_embd: Vec<u32>,
        layers: Vec<LlamaLayer>,
        output_norm: RmsNorm,
        output: QuantLinear,
    ) -> (m: Self)
        ensures
            m.config == config,
            m.token_embd == token_embd,
            m.layers == layers,
            m.output_norm == output_norm,
            m.output == output,
    {
        LlamaModel { config, token_embd, layers, output_norm, output }
    }

    /// The hidden state of a token before the first layer; `None` where the
    /// embedding table has no row for it.
    pub fn embed_token(&self, token: u32) -> (r: Option<Vec<u32>>)
        ensures
            match r {
                Some(v) => has_row(
                    self.token_embd@,
                    self.config.hidden_size as nat,
                    token as nat,
                ) && v@ == row_of(self.token_embd@, self.config.hidden_size as nat, token as nat),
                None => !has_row(self.token_embd@, self.config.hidden_size as nat, token as nat),
            },
    {
        embedding_row(&self.token_embd, self.config.hidden_size, token)
    }

    /// Begins a pass after `cached` tokens, for the logits after the last token
    /// or for its embedding; `None` where the embedding table has no row for a
    /// token.
    pub fn forward(&self, tokens: &Vec<u32>, cached: usize) -> (r: Option<Pass>)
        requires
            cached + tokens@.len() <= usize::MAX,
        ensures
            r is Some <==> all_have_rows(self.token_embd@, self.config.hidden_size as nat, tokens@),
            r matches Some(p) ==> p.begins(
                Order::TokenByToken,
                self.layers@.len(),
                cached as nat,
                self.token_embd@,
                self.config.hidden_size as nat,
                tokens@,
            ),
    {
        begin_token_pass(
            &self.token_embd,
            self.config.hidden_size,
            tokens,
            self.layers.len(),
            cached,
        )
    }

    /// Begins a pass that ends in the normed hidden state of the last token,
    /// before the output projection.
    pub fn embed(&self, tokens: &Vec<u32>, cached: usize) -> (r: Option<Pass>)
        requires
            cached + tokens@.len() <= usize::MAX,
        ensures
            r is Some <==> all_have_rows(self.token_embd@, self.config.hidden_size as nat, tokens@),
            r matches Some(p) ==> p.begins(
                Order::TokenByToken,
                self.layers@.len(),
                cached as nat,
                self.token_embd@,
                self.config.hidden_size as nat,
                tokens@,
            ),
    {
        self.forward(tokens, cached)
    }

    /// Plans what the heads read when a token attends: all positions up to its
    /// own.
    pub fn attention(&self, position: usize) -> (plan: Vec<CausalReads>)
        requires
            self.config.num_kv_heads > 0,
            can_attend(layout_of(self.config@), position as int),
        ensures
            attends(plan@, layout_of(self.config@), position as int, None),
    {
        plan_attention(&head_layout(&self.config), position, None)
    }

    /// The table of angles.
    pub fn rope(&self) -> (t: RopeTable)
        requires
            self.config.max_context_length * (self.config.head_dim / 2) <= usize::MAX,
        ensures
            t.is_table(
                self.config.head_dim,
                self.config.max_context_length as nat,
                (Frequencies {
                    base: self.config.rope_freq_base,
                    scaling_type: self.config.rope_scaling_type,
                    scaling_factor: self.config.rope_scaling_factor,
                }),
            ),
    {
        RopeTable::new(
            self.config.head_dim,
            self.config.max_context_length,
            self.config.rope_freq_base,
            self.config.rope_scaling_type,
            self.config.rope_scaling_factor,
        )
    }

    /// Number of tokens in the vocabulary: the length of the logits.
    pub fn vocab_size(&self) -> (n: usize)
        ensures
            n == self.config.vocab_size,
    {
        self.config.vocab_size
    }

    /// Greatest number of tokens in a context.
    pub fn max_context_length(&self) -> (n: usize)
        ensures
            n == self.config.max_context_length,
    {
        self.config.max_context_length
    }

    /// Size of a hidden state: the length of an embedding.
    pub fn hidden_size(&self) -> (n: usize)
        ensures
            n == self.config.hidden_size,
    {
        self.config.hidden_size
    }

    /// Attaches the adapters of a file to the linear layers whose tensors they
    /// name, the output projection among them. Experts take none.
    pub fn apply_lora(&mut self, lora: &LoadedLora) -> (r: ArchResult<()>)
        ensures
            r is Ok,
            model_patched(*old(self), *final(self), lora@),
    {
        let mut i: usize = 0;
        let ghost before = self.layers@;
        while i < self.layers.len()
            invariant
                i <= self.layers@.len(),
                self.layers@.len() == before.len(),
                before == old(self).layers@,
                self.config == old(self).config,
                self.token_embd == old(self).token_embd,
                self.output_norm == old(self).output_norm,
                self.output == old(self).output,
                forall|j: int|
                    0 <= j < i ==> layer_patched(
                        before[j],
                        #[trigger] self.layers@[j],
                        lora@,
                        j as nat,
                    ),
                forall|j: int| i <= j < before.len() ==> #[trigger] self.layers@[j] == before[j],
            decreases self.layers@.len() - i,
        {
            self.layers[i].apply_lora(lora, i);
            i = i + 1;
        }
        self.output.patch(lora, "output.weight");
        Ok(())
    }
}

/// Applying the same adapters a second time changes nothing.
pub proof fn law_lora_is_idempotent(
    a: LlamaLayer,
    b: LlamaLayer,
    c: LlamaLayer,
    adapters: Map<Seq<char>, Arc<LoraAdapter>>,
    i: nat,
)
    requires
        layer_patched(a, b, adapters, i),
        layer_patched(b, c, adapters, i),
    ensures
        c == b,
{
}

/// Adapters for other tensors leave a layer as it is.
pub proof fn law_foreign_lora_is_ignored(
    a: LlamaLayer,
    b: LlamaLayer,
    adapters: Map<Seq<char>, Arc<LoraAdapter>>,
    i: nat,
)
    requires
        layer_patched(a, b, adapters, i),
        forall|s: Seq<char>| !adapters.contains_key(#[trigger] block_tensor(i, s)),
    ensures
        b == a,
{
}

/// Experts that were loaded from a file have the shapes that a layer of
/// experts demands.
pub proof fn law_loaded_experts_are_valid(f: FfnVariant, m: TensorMap, c: ModelConfigView, i: nat)
    requires
        is_ffn(f, m, c, i),
        ffn_failure(m, c, i) is None,
        values_of(m, router_name(i)).len() <= usize::MAX,
    ensures
        f matches FfnVariant::Moe(x) ==> {
            &&& x.failure() is None
            &&& forall|e: int|
                0 <= e < x.experts@.len() ==> (#[trigger] x.experts@[e]).failure() is None
        },
{
    if let FfnVariant::Moe(x) = f {
        let n = c.num_experts;
        let stride = c.intermediate_size * c.hidden_size;
        assert(c.hidden_size * c.intermediate_size == stride) by (nonlinear_arith)
            requires
                stride == c.intermediate_size * c.hidden_size,
        ;
        assert forall|e: int| 0 <= e < x.experts@.len() implies (
        #[trigger] x.experts@[e]).failure() is None by {
            assert(e * stride + stride <= n * stride) by (nonlinear_arith)
                requires
                    e + 1 <= n,
                    stride >= 0,
            ;
            assert(e * stride >= 0) by (nonlinear_arith)
                requires
                    e >= 0,
                    stride >= 0,
            ;
        }
    }
}

/// In a loaded model every weight is that of the tensor that is named after it:
/// `blk.{i}` and the name of the part for layer `i`, and the bare name for the
/// parts that the layers share.
pub proof fn law_tensors_are_where_their_names_say(
    model: LlamaModel,
    m: TensorMap,
    c: ModelConfigView,
    i: int,
)
    requires
        is_llama(model, m, c),
        0 <= i < model.layers@.len(),
    ensures
        model.layers@[i].attn_norm.weight@
            == m["blk."@ + decimal(i as nat) + ".attn_norm.weight"@].decode()->Ok_0,
        model.layers@[i].attn_norm.eps == c.rms_norm_eps,
        model.layers@[i].ffn_norm.weight@
            == m["blk."@ + decimal(i as nat) + ".ffn_norm.weight"@].decode()->Ok_0,
        model.layers@[i].ffn_norm.eps == c.rms_norm_eps,
        m["blk."@ + decimal(i as nat) + ".attn_q.weight"@].bytes()
            == Some(model.layers@[i].attn_q.weight.data@),
        model.layers@[i].attn_q.weight.shape@
            == m["blk."@ + decimal(i as nat) + ".attn_q.weight"@].dims(),
        model.layers@[i].attn_q.weight.tensor_type
            == m["blk."@ + decimal(i as nat) + ".attn_q.weight"@].kind(),
        model.layers@[i].attn_q.lora is None,
        model.layers@[i].attn_q.bias is None,
        m["blk."@ + decimal(i as nat) + ".attn_k.weight"@].bytes()
            == Some(model.layers@[i].attn_k.weight.data@),
        model.layers@[i].attn_k.weight.shape@
            == m["blk."@ + decimal(i as nat) + ".attn_k.weight"@].dims(),
        model.layers@[i].attn_k.weight.tensor_type
            == m["blk."@ + decimal(i as nat) + ".attn_k.weight"@].kind(),
        model.layers@[i].attn_k.lora is None,
        model.layers@[i].attn_k.bias is None,
        m["blk."@ + decimal(i as nat) + ".attn_v.weight"@].bytes()
            == Some(model.layers@[i].attn_v.weight.data@),
        model.layers@[i].attn_v.weight.shape@
            == m["blk."@ + decimal(i as nat) + ".attn_v.weight"@].dims(),
        model.layers@[i].attn_v.weight.tensor_type
            == m["blk."@ + decimal(i as nat) + ".attn_v.weight"@].kind(),
        model.layers@[i].attn_v.lora is None,
        model.layers@[i].attn_v.bias is None,
        m["blk."@ + decimal(i as nat) + ".attn_output.weight"@].bytes()
            == Some(model.layers@[i].attn_output.weight.data@),
        model.layers@[i].attn_output.weight.shape@
            == m["blk."@ + decimal(i as nat) + ".attn_output.weight"@].dims(),
        model.layers@[i].attn_output.weight.tensor_type
            == m["blk."@ + decimal(i as nat) + ".attn_output.weight"@].kind(),
        model.layers@[i].attn_output.lora is None,
        model.layers@[i].attn_output.bias is None,
        model.layers@[i].ffn matches FfnVariant::Dense(x) ==> {
            &&& m["blk."@ + decimal(i as nat) + ".ffn_gate.weight"@].bytes()
                == Some(x.gate.weight.data@)
            &&& x.gate.weight.shape@ == m["blk."@ + decimal(i as nat) + ".ffn_gate.weight"@].dims()
            &&& x.gate.weight.tensor_type
                == m["blk."@ + decimal(i as nat) + ".ffn_gate.weight"@].kind()
            &&& x.gate.lora is None
            &&& x.gate.bias is None
            &&& m["blk."@ + decimal(i as nat) + ".ffn_up.weight"@].bytes()
                == Some(x.up.weight.data@)
            &&& x.up.weight.shape@ == m["blk."@ + decimal(i as nat) + ".ffn_up.weight"@].dims()
            &&& x.up.weight.tensor_type == m["blk."@ + decimal(i as nat) + ".ffn_up.weight"@].kind()
            &&& x.up.lora is None
            &&& x.up.bias is None
            &&& m["blk."@ + decimal(i as nat) + ".ffn_down.weight"@].bytes()
                == Some(x.down.weight.data@)
            &&& x.down.weight.shape@ == m["blk."@ + decimal(i as nat) + ".ffn_down.weight"@].dims()
            &&& x.down.weight.tensor_type
                == m["blk."@ + decimal(i as nat) + ".ffn_down.weight"@].kind()
            &&& x.down.lora is None
            &&& x.down.bias is None
        },
        model.layers@[i].ffn is Dense <==> c.num_experts == 0,
        model.layers@[i].ffn matches FfnVariant::Moe(x) ==> {
            &&& x.router@ == m["blk."@ + decimal(i as nat) + ".ffn_gate_inp.weight"@].decode()->Ok_0
            &&& x.experts@.len() == c.num_experts
            &&& x.num_experts == c.num_experts
            &&& x.hidden_size == c.hidden_size
            &&& c.num_experts_used > 0 ==> x.top_k == c.num_experts_used
            &&& c.num_experts_used == 0 ==> x.top_k == 1
        },
        model.layers@.len() == c.num_layers,
        model.token_embd@ == m["token_embd.weight"@].decode()->Ok_0,
        model.output_norm.weight@ == m["output_norm.weight"@].decode()->Ok_0,
        model.output_norm.eps == c.rms_norm_eps,
        m["output.weight"@].bytes() == Some(model.output.weight.data@),
        model.output.weight.shape@ == m["output.weight"@].dims(),
        model.output.weight.tensor_type == m["output.weight"@].kind(),
        model.output.lora is None,
        model.output.bias is None,
{
    assert(is_layer(model.layers@[i], m, c, i as nat));
}

/// An adapter lands on the projection that is loaded from the tensor it names:
/// query, key, value, output, gating, up and down projections each take the
/// adapter under their own tensor's name, and stay as they were where there is
/// none. Experts take none; the output projection of the model takes
/// the one under its own name.
pub proof fn law_adapters_land_where_they_are_named(
    a: LlamaModel,
    b: LlamaModel,
    adapters: Map<Seq<char>, Arc<LoraAdapter>>,
    i: int,
)
    requires
        model_patched(a, b, adapters),
        0 <= i < a.layers@.len(),
    ensures
        adapters.contains_key("blk."@ + decimal(i as nat) + ".attn_q.weight"@)
            ==> b.layers@[i].attn_q.lora
            == Some(adapters["blk."@ + decimal(i as nat) + ".attn_q.weight"@]),
        !adapters.contains_key("blk."@ + decimal(i as nat) + ".attn_q.weight"@)
            ==> b.layers@[i].attn_q == a.layers@[i].attn_q,
        b.layers@[i].attn_q.weight == a.layers@[i].attn_q.weight,
        b.layers@[i].attn_q.bias == a.layers@[i].attn_q.bias,
        adapters.contains_key("blk."@ + decimal(i as nat) + ".attn_k.weight"@)
            ==> b.layers@[i].attn_k.lora
            == Some(adapters["blk."@ + decimal(i as nat) + ".attn_k.weight"@]),
        !adapters.contains_key("blk."@ + decimal(i as nat) + ".attn_k.weight"@)
            ==> b.layers@[i].attn_k == a.layers@[i].attn_k,
        b.layers@[i].attn_k.weight == a.layers@[i].attn_k.weight,
        b.layers@[i].attn_k.bias == a.layers@[i].attn_k.bias,
        adapters.contains_key("blk."@ + decimal(i as nat) + ".attn_v.weight"@)
            ==> b.layers@[i].attn_v.lora
            == Some(adapters["blk."@ + decimal(i as nat) + ".attn_v.weight"@]),
        !adapters.contains_key("blk."@ + decimal(i as nat) + ".attn_v.weight"@)
            ==> b.layers@[i].attn_v == a.layers@[i].attn_v,
        b.layers@[i].attn_v.weight == a.layers@[i].attn_v.weight,
        b.layers@[i].attn_v.bias == a.layers@[i].attn_v.bias,
        adapters.contains_key("blk."@ + decimal(i as nat) + ".attn_output.weight"@)
            ==> b.layers@[i].attn_output.lora
            == Some(adapters["blk."@ + decimal(i as nat) + ".attn_output.weight"@]),
        !adapters.contains_key("blk."@ + decimal(i as nat) + ".attn_output.weight"@)
            ==> b.layers@[i].attn_output == a.layers@[i].attn_output,
        b.layers@[i].attn_output.weight == a.layers@[i].attn_output.weight,
        b.layers@[i].attn_output.bias == a.layers@[i].attn_output.bias,
        a.layers@[i].ffn matches FfnVariant::Dense(x) ==> {
            &&& b.layers@[i].ffn matches FfnVariant::Dense(y)
            &&& adapters.contains_key("blk."@ + decimal(i as nat) + ".ffn_gate.weight"@)
                ==> y.gate.lora == Some(adapters["blk."@ + decimal(i as nat) + ".ffn_gate.weight"@])
            &&& !adapters.contains_key("blk."@ + decimal(i as nat) + ".ffn_gate.weight"@)
                ==> y.gate == x.gate
            &&& y.gate.weight == x.gate.weight
            &&& y.gate.bias == x.gate.bias
            &&& adapters.contains_key("blk."@ + decimal(i as nat) + ".ffn_up.weight"@)
                ==> y.up.lora == Some(adapters["blk."@ + decimal(i as nat) + ".ffn_up.weight"@])
            &&& !adapters.contains_key("blk."@ + decimal(i as nat) + ".ffn_up.weight"@)
                ==> y.up == x.up
            &&& y.up.weight == x.up.weight
            &&& y.up.bias == x.up.bias
            &&& adapters.contains_key("blk."@ + decimal(i as nat) + ".ffn_down.weight"@)
                ==> y.down.lora == Some(adapters["blk."@ + decimal(i as nat) + ".ffn_down.weight"@])
            &&& !adapters.contains_key("blk."@ + decimal(i as nat) + ".ffn_down.weight"@)
                ==> y.down == x.down
            &&& y.down.weight == x.down.weight
            &&& y.down.bias == x.down.bias
        },
        a.layers@[i].ffn is Moe ==> b.layers@[i].ffn == a.layers@[i].ffn,
        b.layers@[i].attn_norm == a.layers@[i].attn_norm,
        b.layers@[i].ffn_norm == a.layers@[i].ffn_norm,
        adapters.contains_key("output.weight"@)
            ==> b.output.lora == Some(adapters["output.weight"@]),
        !adapters.contains_key("output.weight"@) ==> b.output == a.output,
        b.output.weight == a.output.weight,
        b.token_embd == a.token_embd,
        b.output_norm == a.output_norm,
        b.config == a.config,
        b.layers@.len() == a.layers@.len(),
{
    assert(layer_patched(a.layers@[i], b.layers@[i], adapters, i as nat));
}

/// A file with one adapter changes one projection: the one of the named part in
/// the named layer. All others keep what they had.
#[verifier::rlimit(40)]
pub proof fn law_one_adapter_changes_one_projection(
    a: LlamaModel,
    b: LlamaModel,
    i: int,
    s: Seq<char>,
    x: Arc<LoraAdapter>,
    adapters: Map<Seq<char>, Arc<LoraAdapter>>,
)
    requires
        model_patched(a, b, adapters),
        0 <= i < a.layers@.len(),
        s.len() > 0,
        s[0] == '.',
        adapters == Map::<Seq<char>, Arc<LoraAdapter>>::empty().insert(
            "blk."@ + decimal(i as nat) + s,
            x,
        ),
    ensures
        s == ".attn_q.weight"@ ==> b.layers@[i].attn_q.lora == Some(x),
        s != ".attn_q.weight"@ ==> b.layers@[i].attn_q == a.layers@[i].attn_q,
        s == ".attn_k.weight"@ ==> b.layers@[i].attn_k.lora == Some(x),
        s != ".attn_k.weight"@ ==> b.layers@[i].attn_k == a.layers@[i].attn_k,
        s == ".attn_v.weight"@ ==> b.layers@[i].attn_v.lora == Some(x),
        s != ".attn_v.weight"@ ==> b.layers@[i].attn_v == a.layers@[i].attn_v,
        s == ".attn_output.weight"@ ==> b.layers@[i].attn_output.lora == Some(x),
        s != ".attn_output.weight"@ ==> b.layers@[i].attn_output == a.layers@[i].attn_output,
        a.layers@[i].ffn matches FfnVariant::Dense(d) ==> {
            &&& b.layers@[i].ffn matches FfnVariant::Dense(e)
            &&& s == ".ffn_gate.weight"@ ==> e.gate.lora == Some(x)
            &&& s != ".ffn_gate.weight"@ ==> e.gate == d.gate
            &&& s == ".ffn_up.weight"@ ==> e.up.lora == Some(x)
            &&& s != ".ffn_up.weight"@ ==> e.up == d.up
            &&& s == ".ffn_down.weight"@ ==> e.down.lora == Some(x)
            &&& s != ".ffn_down.weight"@ ==> e.down == d.down
        },
        forall|j: int| 0 <= j < a.layers@.len() && j != i
            ==> #[trigger] b.layers@[j] == a.layers@[j],
        b.output == a.output,
{
    let name = block_tensor(i as nat, s);
    reveal_strlit(".attn_q.weight");
    reveal_strlit(".attn_k.weight");
    reveal_strlit(".attn_v.weight");
    reveal_strlit(".attn_output.weight");
    reveal_strlit(".ffn_gate.weight");
    reveal_strlit(".ffn_up.weight");
    reveal_strlit(".ffn_down.weight");
    reveal_strlit("output.weight");
    reveal_strlit("blk.");
    assert(name[0] == 'b');
    assert("output.weight"@[0] == 'o');
    assert(layer_patched(a.layers@[i], b.layers@[i], adapters, i as nat));
    if name == block_tensor(i as nat, ".attn_q.weight"@) {
        law_block_tensors_are_distinct(i as nat, s, i as nat, ".attn_q.weight"@);
    }
    if name == block_tensor(i as nat, ".attn_k.weight"@) {
        law_block_tensors_are_distinct(i as nat, s, i as nat, ".attn_k.weight"@);
    }
    if name == block_tensor(i as nat, ".attn_v.weight"@) {
        law_block_tensors_are_distinct(i as nat, s, i as nat, ".attn_v.weight"@);
    }
    if name == block_tensor(i as nat, ".attn_output.weight"@) {
        law_block_tensors_are_distinct(i as nat, s, i as nat, ".attn_output.weight"@);
    }
    if name == block_tensor(i as nat, ".ffn_gate.weight"@) {
        law_block_tensors_are_distinct(i as nat, s, i as nat, ".ffn_gate.weight"@);
    }
    if name == block_tensor(i as nat, ".ffn_up.weight"@) {
        law_block_tensors_are_distinct(i as nat, s, i as nat, ".ffn_up.weight"@);
    }
    if name == block_tensor(i as nat, ".ffn_down.weight"@) {
        law_block_tensors_are_distinct(i as nat, s, i as nat, ".ffn_down.weight"@);
    }
    assert forall|j: int| 0 <= j < a.layers@.len() && j != i implies #[trigger] b.layers@[j]
        == a.layers@[j] by {
        assert(layer_patched(a.layers@[j], b.layers@[j], adapters, j as nat));
        if name == block_tensor(j as nat, ".attn_q.weight"@) {
            law_block_tensors_are_distinct(i as nat, s, j as nat, ".attn_q.weight"@);
        }
        if name == block_tensor(j as nat, ".attn_k.weight"@) {
            law_block_tensors_are_distinct(i as nat, s, j as nat, ".attn_k.weight"@);
        }
        if name == block_tensor(j as nat, ".attn_v.weight"@) {
            law_block_tensors_are_distinct(i as nat, s, j as nat, ".attn_v.weight"@);
        }
        if name == block_tensor(j as nat, ".attn_output.weight"@) {
            law_block_tensors_are_distinct(i as nat, s, j as nat, ".attn_output.weight"@);
        }
        if name == block_tensor(j as nat, ".ffn_gate.weight"@) {
            law_block_tensors_are_distinct(i as nat, s, j as nat, ".ffn_gate.weight"@);
        }
        if name == block_tensor(j as nat, ".ffn_up.weight"@) {
            law_block_tensors_are_distinct(i as nat, s, j as nat, ".ffn_up.weight"@);
        }
        if name == block_tensor(j as nat, ".ffn_down.weight"@) {
            law_block_tensors_are_distinct(i as nat, s, j as nat, ".ffn_down.weight"@);
        }
    }
}

/// A model loads exactly where every tensor that it needs is there and can be had:
/// those that the layers share, and those of each of its layers.
#[verifier::rlimit(40)]
pub proof fn law_model_loads_where_its_tensors_are_there(m: TensorMap, c: ModelConfigView)
    ensures
        llama_failure(m, c) is None <==> {
            &&& embedding_failure(m, "token_embd.weight"@) is None
            &&& forall|i: nat|
                #![trigger decimal(i)]
                i < c.num_layers ==> {
                    &&& values_failure(m, "blk."@ + decimal(i) + ".attn_norm.weight"@) is None
                    &&& values_failure(m, "blk."@ + decimal(i) + ".ffn_norm.weight"@) is None
                    &&& bytes_failure(m, "blk."@ + decimal(i) + ".attn_q.weight"@) is None
                    &&& bytes_failure(m, "blk."@ + decimal(i) + ".attn_k.weight"@) is None
                    &&& bytes_failure(m, "blk."@ + decimal(i) + ".attn_v.weight"@) is None
                    &&& bytes_failure(m, "blk."@ + decimal(i) + ".attn_output.weight"@) is None
                    &&& ffn_failure(m, c, i) is None
                }
            &&& values_failure(m, "output_norm.weight"@) is None
            &&& bytes_failure(m, "output.weight"@) is None
        },
{
    let f = layer_failures(m, c);
    let n = c.num_layers as nat;
    law_first_failing_part_is_reported(f, n);
    assert forall|i: nat|
        #![trigger decimal(i)]
        i < n && first_failure(f, n) is None implies {
        &&& values_failure(m, "blk."@ + decimal(i) + ".attn_norm.weight"@) is None
        &&& values_failure(m, "blk."@ + decimal(i) + ".ffn_norm.weight"@) is None
        &&& bytes_failure(m, "blk."@ + decimal(i) + ".attn_q.weight"@) is None
        &&& bytes_failure(m, "blk."@ + decimal(i) + ".attn_k.weight"@) is None
        &&& bytes_failure(m, "blk."@ + decimal(i) + ".attn_v.weight"@) is None
        &&& bytes_failure(m, "blk."@ + decimal(i) + ".attn_output.weight"@) is None
        &&& ffn_failure(m, c, i) is None
    } by {
        assert(f(i) is None);
        assert(layer_failure(m, c, i) is None);
    }
    if forall|i: nat|
        #![trigger decimal(i)]
        i < n ==> {
            &&& values_failure(m, "blk."@ + decimal(i) + ".attn_norm.weight"@) is None
            &&& values_failure(m, "blk."@ + decimal(i) + ".ffn_norm.weight"@) is None
            &&& bytes_failure(m, "blk."@ + decimal(i) + ".attn_q.weight"@) is None
            &&& bytes_failure(m, "blk."@ + decimal(i) + ".attn_k.weight"@) is None
            &&& bytes_failure(m, "blk."@ + decimal(i) + ".attn_v.weight"@) is None
            &&& bytes_failure(m, "blk."@ + decimal(i) + ".attn_output.weight"@) is None
            &&& ffn_failure(m, c, i) is None
        } {
        assert forall|i: nat| i < n implies (#[trigger] f(i)) is None by {
            let d = decimal(i);
            assert(layer_failure(m, c, i) is None);
        }
    }
}

/// Of the tensors of a block the first that cannot be had, in the order of loading,
/// is the one that is reported.
pub proof fn law_first_missing_part_of_a_block_is_reported(m: TensorMap, c: ModelConfigView, i: nat)
    ensures
        values_failure(m, "blk."@ + decimal(i) + ".attn_norm.weight"@) is Some
            ==> layer_failure(m, c, i)
            == values_failure(m, "blk."@ + decimal(i) + ".attn_norm.weight"@),
        values_failure(m, "blk."@ + decimal(i) + ".attn_norm.weight"@) is None
            && values_failure(m, "blk."@ + decimal(i) + ".ffn_norm.weight"@) is Some
            ==> layer_failure(m, c, i)
            == values_failure(m, "blk."@ + decimal(i) + ".ffn_norm.weight"@),
        values_failure(m, "blk."@ + decimal(i) + ".attn_norm.weight"@) is None
            && values_failure(m, "blk."@ + decimal(i) + ".ffn_norm.weight"@) is None
            && bytes_failure(m, "blk."@ + decimal(i) + ".attn_q.weight"@) is Some
            ==> layer_failure(m, c, i)
            == bytes_failure(m, "blk."@ + decimal(i) + ".attn_q.weight"@),
        values_failure(m, "blk."@ + decimal(i) + ".attn_norm.weight"@) is None
            && values_failure(m, "blk."@ + decimal(i) + ".ffn_norm.weight"@) is None
            && bytes_failure(m, "blk."@ + decimal(i) + ".attn_q.weight"@) is None
            && bytes_failure(m, "blk."@ + decimal(i) + ".attn_k.weight"@) is Some
            ==> layer_failure(m, c, i)
            == bytes_failure(m, "blk."@ + decimal(i) + ".attn_k.weight"@),
        values_failure(m, "blk."@ + decimal(i) + ".attn_norm.weight"@) is None
            && values_failure(m, "blk."@ + decimal(i) + ".ffn_norm.weight"@) is None
            && bytes_failure(m, "blk."@ + decimal(i) + ".attn_q.weight"@) is None
            && bytes_failure(m, "blk."@ + decimal(i) + ".attn_k.weight"@) is None
            && bytes_failure(m, "blk."@ + decimal(i) + ".attn_v.weight"@) is Some
            ==> layer_failure(m, c, i)
            == bytes_failure(m, "blk."@ + decimal(i) + ".attn_v.weight"@),
        values_failure(m, "blk."@ + decimal(i) + ".attn_norm.weight"@) is None
            && values_failure(m, "blk."@ + decimal(i) + ".ffn_norm.weight"@) is None
            && bytes_failure(m, "blk."@ + decimal(i) + ".attn_q.weight"@) is None
            && bytes_failure(m, "blk."@ + decimal(i) + ".attn_k.weight"@) is None
            && bytes_failure(m, "blk."@ + decimal(i) + ".attn_v.weight"@) is None
            && bytes_failure(m, "blk."@ + decimal(i) + ".attn_output.weight"@) is Some
            ==> layer_failure(m, c, i)
            == bytes_failure(m, "blk."@ + decimal(i) + ".attn_output.weight"@),
        values_failure(m, "blk."@ + decimal(i) + ".attn_norm.weight"@) is None
            && values_failure(m, "blk."@ + decimal(i) + ".ffn_norm.weight"@) is None
            && bytes_failure(m, "blk."@ + decimal(i) + ".attn_q.weight"@) is None
            && bytes_failure(m, "blk."@ + decimal(i) + ".attn_k.weight"@) is None
            && bytes_failure(m, "blk."@ + decimal(i) + ".attn_v.weight"@) is None
            && bytes_failure(m, "blk."@ + decimal(i) + ".attn_output.weight"@) is None
            && ffn_failure(m, c, i) is Some ==> layer_failure(m, c, i) == ffn_failure(m, c, i),
{
}

/// What is reported of a model is the first failure in the order of loading: the
/// embedding table, then one block after another, then what follows the blocks.
pub proof fn law_blocks_are_loaded_in_order(m: TensorMap, c: ModelConfigView, k: nat)
    ensures
        embedding_failure(m, "token_embd.weight"@) is Some
            ==> llama_failure(m, c) == embedding_failure(m, "token_embd.weight"@),
        embedding_failure(m, "token_embd.weight"@) is None && k < c.num_layers
            && layer_failure(m, c, k) is Some && (forall|j: nat|
            #![trigger decimal(j)]
            j < k ==> layer_failure(m, c, j) is None)
                ==> llama_failure(m, c) == layer_failure(m, c, k),
{
    let f = layer_failures(m, c);
    law_first_failing_part_is_reported(f, c.num_layers as nat);
    if k < c.num_layers && layer_failure(m, c, k) is Some && (forall|j: nat|
        #![trigger decimal(j)]
        j < k ==> layer_failure(m, c, j) is None) {
        assert(f(k) is Some);
        assert forall|j: nat| j < k implies (#[trigger] f(j)) is None by {
            let d = decimal(j);
        }
    }
}

/// A dense feed-forward network needs its three projections, and experts need their
/// stacks.
pub proof fn law_networks_need_their_projections(m: TensorMap, c: ModelConfigView, i: nat)
    ensures
        c.num_experts == 0 ==> (ffn_failure(m, c, i) is None <==> {
            &&& bytes_failure(m, "blk."@ + decimal(i) + ".ffn_gate.weight"@) is None
            &&& bytes_failure(m, "blk."@ + decimal(i) + ".ffn_up.weight"@) is None
            &&& bytes_failure(m, "blk."@ + decimal(i) + ".ffn_down.weight"@) is None
        }),
        c.num_experts == 0 && !m.contains_key("blk."@ + decimal(i) + ".ffn_gate.weight"@)
            ==> ffn_failure(m, c, i) == Some(
            ArchErrorView::MissingTensor { name: "blk."@ + decimal(i) + ".ffn_gate.weight"@ },
        ),
        c.num_experts > 0 ==> ffn_failure(m, c, i) == stack_failure(
            m,
            i,
            c.num_experts,
            c.intermediate_size,
            c.hidden_size,
        ),
{
}

} // verus!
