//! Command-R: a decoder with optional head norms and scaled logits.

use crate::bits::{far_from_one, is_far_from_one};
use crate::common::embedding::{all_have_rows, embedding_row, has_row, row_of};
use crate::common::heads::{
    attends, can_attend, head_layout, law_attention_plans_are_unique, layout_of, plan_attention,
    same_reads, CausalReads,
};
use crate::common::linear::{LoadedLora, LoraAdapter, QuantLinear};
use crate::common::load::{
    bytes_failure, embedding_failure, is_linear, is_norm, is_optional_norm, load_embedding,
    load_optional_norm, load_quant_linear, load_rms_norm, values_failure, values_of,
};
use crate::common::norm::RmsNorm;
use crate::common::pass::{begin_token_pass, Order, Pass};
use crate::common::rope::{Frequencies, RopeTable};
use crate::config::{ModelConfig, ModelConfigView};
use crate::error::{
    first_failure, first_of, follows, law_first_failing_part_is_reported, lemma_first_failure,
    ArchErrorView, ArchResult,
};
use crate::gguf::{GgufModel, TensorMap, TensorStore};
use crate::llama::{linear_patched, llama_failure};
use crate::text::{block_name, block_tensor, decimal, law_block_tensors_are_distinct};
use crate::traits::{
    add_pattern, build_refusal, no_patterns, pattern_views, refuse_build, tensor, ModelArchitecture,
    PatternView, TensorNamePattern,
};
use std::sync::Arc;
use vstd::prelude::*;

verus! {

/// The family of models with the identifier `command-r`.
#[derive(Debug, Clone, Copy)]
pub struct CommandRArchitecture;

impl CommandRArchitecture {
    /// The family.
    pub fn new() -> (a: Self)
        ensures
            a == CommandRArchitecture,
    {
        CommandRArchitecture
    }

    /// Answers a request to build a model from its tensors' names: the tensors'
    /// data can only be had from a file, so every request is refused.
    pub fn build(&self, config: &ModelConfig, _tensors: &TensorStore) -> (r: ArchResult<()>)
        ensures
            r matches Err(e) && e@ == build_refusal(
                config@,
                "token_embd.weight (use CommandRModel::from_gguf for full loading)"@,
            ),
    {
        refuse_build(
            config,
            "token_embd.weight (use CommandRModel::from_gguf for full loading)",
        )
    }
}

impl Default for CommandRArchitecture {
    fn default() -> (a: Self)
        ensures
            a == CommandRArchitecture,
    {
        CommandRArchitecture
    }
}

/// The tensors of the family.
pub open spec fn command_r_patterns() -> Seq<PatternView> {
    seq![
        tensor("token_embd.weight"@, "Token embedding matrix"@, true),
        tensor("output_norm.weight"@, "Final RMSNorm"@, true),
        tensor("output.weight"@, "LM head / unembedding"@, true),
        tensor("blk.{i}.attn_norm.weight"@, "Pre-attention RMSNorm"@, true),
        tensor("blk.{i}.attn_q.weight"@, "Query projection"@, true),
        tensor("blk.{i}.attn_k.weight"@, "Key projection"@, true),
        tensor("blk.{i}.attn_v.weight"@, "Value projection"@, true),
        tensor("blk.{i}.attn_output.weight"@, "Attention output projection"@, true),
        tensor("blk.{i}.attn_q_norm.weight"@, "Q normalization (Command-R+)"@, false),
        tensor("blk.{i}.attn_k_norm.weight"@, "K normalization (Command-R+)"@, false),
        tensor("blk.{i}.ffn_norm.weight"@, "Pre-FFN RMSNorm"@, true),
        tensor("blk.{i}.ffn_gate.weight"@, "FFN gate projection"@, true),
        tensor("blk.{i}.ffn_up.weight"@, "FFN up projection"@, true),
        tensor("blk.{i}.ffn_down.weight"@, "FFN down projection"@, true),
    ]
}

/// Lists the tensors of the family.
fn command_r_tensors() -> (v: Vec<TensorNamePattern>)
    ensures
        pattern_views(v@) == command_r_patterns(),
{
    let mut v = no_patterns();
    add_pattern(&mut v, "token_embd.weight", "Token embedding matrix", true);
    add_pattern(&mut v, "output_norm.weight", "Final RMSNorm", true);
    add_pattern(&mut v, "output.weight", "LM head / unembedding", true);
    add_pattern(&mut v, "blk.{i}.attn_norm.weight", "Pre-attention RMSNorm", true);
    add_pattern(&mut v, "blk.{i}.attn_q.weight", "Query projection", true);
    add_pattern(&mut v, "blk.{i}.attn_k.weight", "Key projection", true);
    add_pattern(&mut v, "blk.{i}.attn_v.weight", "Value projection", true);
    add_pattern(&mut v, "blk.{i}.attn_output.weight", "Attention output projection", true);
    add_pattern(&mut v, "blk.{i}.attn_q_norm.weight", "Q normalization (Command-R+)", false);
    add_pattern(&mut v, "blk.{i}.attn_k_norm.weight", "K normalization (Command-R+)", false);
    add_pattern(&mut v, "blk.{i}.ffn_norm.weight", "Pre-FFN RMSNorm", true);
    add_pattern(&mut v, "blk.{i}.ffn_gate.weight", "FFN gate projection", true);
    add_pattern(&mut v, "blk.{i}.ffn_up.weight", "FFN up projection", true);
    add_pattern(&mut v, "blk.{i}.ffn_down.weight", "FFN down projection", true);
    v
}

impl ModelArchitecture for CommandRArchitecture {
    open spec fn id(&self) -> Seq<char> {
        "command-r"@
    }

    open spec fn tensors(&self) -> Seq<PatternView> {
        command_r_patterns()
    }

    fn arch_id(&self) -> (r: &'static str) {
        "command-r"
    }

    fn tensor_names(&self) -> (v: Vec<TensorNamePattern>) {
        command_r_tensors()
    }
}

/// The weights of one layer.
#[derive(Debug)]
pub struct CommandRLayer {
    /// Norm before attention.
    pub attn_norm: RmsNorm,
    /// Query projection.
    pub attn_q: QuantLinear,
    /// Key projection.
    pub attn_k: QuantLinear,
    /// Value projection.
    pub attn_v: QuantLinear,
    /// Output projection of attention.
    pub attn_output: QuantLinear,
    /// Norm of each query head.
    pub attn_q_norm: Option<RmsNorm>,
    /// Norm of each key head.
    pub attn_k_norm: Option<RmsNorm>,
    /// Norm before the feed-forward network.
    pub ffn_norm: RmsNorm,
    /// Gate projection.
    pub ffn_gate: QuantLinear,
    /// Up projection.
    pub ffn_up: QuantLinear,
    /// Down projection.
    pub ffn_down: QuantLinear,
}

/// A loaded model.
#[derive(Debug)]
pub struct CommandRModel {
    /// The configuration.
    pub config: ModelConfig,
    /// The embedding table, one row for each token.
    pub token_embd: Vec<u32>,
    /// The layers.
    pub layers: Vec<CommandRLayer>,
    /// Norm before the output projection.
    pub output_norm: RmsNorm,
    /// Output projection.
    pub output: QuantLinear,
    /// Factor on the logits, as a pattern.
    pub logit_scale: u32,
}

impl CommandRLayer {
    fn apply_lora(&mut self, lora: &LoadedLora, i: usize)
        ensures
            layer_patched(*old(self), *final(self), lora@, i as nat),
    {
        self.attn_q.patch(lora, block_name(i, ".attn_q.weight").as_str());
        self.attn_k.patch(lora, block_name(i, ".attn_k.weight").as_str());
        self.attn_v.patch(lora, block_name(i, ".attn_v.weight").as_str());
        self.attn_output.patch(lora, block_name(i, ".attn_output.weight").as_str());
        self.ffn_gate.patch(lora, block_name(i, ".ffn_gate.weight").as_str());
        self.ffn_up.patch(lora, block_name(i, ".ffn_up.weight").as_str());
        self.ffn_down.patch(lora, block_name(i, ".ffn_down.weight").as_str());
    }
}

/// Whether one layer becomes another when adapters are applied to block `i`:
/// its projections take the adapters under their tensors' names, and nothing
/// else changes.
pub open spec fn layer_patched(
    a: CommandRLayer,
    b: CommandRLayer,
    adapters: Map<Seq<char>, Arc<LoraAdapter>>,
    i: nat,
) -> bool {
    &&& b.attn_norm == a.attn_norm
    &&& b.attn_q_norm == a.attn_q_norm
    &&& b.attn_k_norm == a.attn_k_norm
    &&& b.ffn_norm == a.ffn_norm
    &&& linear_patched(a.attn_q, b.attn_q, adapters, block_tensor(i, ".attn_q.weight"@))
    &&& linear_patched(a.attn_k, b.attn_k, adapters, block_tensor(i, ".attn_k.weight"@))
    &&& linear_patched(a.attn_v, b.attn_v, adapters, block_tensor(i, ".attn_v.weight"@))
    &&& linear_patched(
        a.attn_output,
        b.attn_output,
        adapters,
        block_tensor(i, ".attn_output.weight"@),
    )
    &&& linear_patched(a.ffn_gate, b.ffn_gate, adapters, block_tensor(i, ".ffn_gate.weight"@))
    &&& linear_patched(a.ffn_up, b.ffn_up, adapters, block_tensor(i, ".ffn_up.weight"@))
    &&& linear_patched(a.ffn_down, b.ffn_down, adapters, block_tensor(i, ".ffn_down.weight"@))
}

impl CommandRModel {
    /// A model of given weights.
    pub fn new(
        config: ModelConfig,
        token_embd: Vec<u32>,
        layers: Vec<CommandRLayer>,
        output_norm: RmsNorm,
        output: QuantLinear,
        logit_scale: u32,
    ) -> (m: Self)
        ensures
            m.config == config,
            m.token_embd == token_embd,
            m.layers == layers,
            m.output_norm == output_norm,
            m.output == output,
            m.logit_scale == logit_scale,
    {
        CommandRModel { config, token_embd, layers, output_norm, output, logit_scale }
    }

    /// Whether logits are multiplied by their factor: a factor of one is not
    /// applied.
    pub fn scales_logits(&self) -> (b: bool)
        ensures
            b == is_far_from_one(self.logit_scale),
    {
        far_from_one(self.logit_scale)
    }

    /// The hidden state of a token before the first layer; `None` where the
    /// embedding table has no row for it.
    pub fn embed_token(&self, token: u32) -> (r: Option<Vec<u32>>)
        ensures
            match r {
                Some(v) => has_row(
                    self.token_embd@,
                    self.config.hidden_size as nat,
                    token as nat,
                ) && v@ == row_of(self.token_embd@, self.config.hidden_size as nat, token as nat),
                None => !has_row(self.token_embd@, self.config.hidden_size as nat, token as nat),
            },
    {
        embedding_row(&self.token_embd, self.config.hidden_size, token)
    }

    /// Plans what the heads read when a token attends: all positions up to its
    /// own.
    pub fn attention(&self, position: usize) -> (plan: Vec<CausalReads>)
        requires
            self.config.num_kv_heads > 0,
            can_attend(layout_of(self.config@), position as int),
        ensures
            attends(plan@, layout_of(self.config@), position as int, None),
    {
        plan_attention(&head_layout(&self.config), position, None)
    }

    /// Begins a pass after `cached` tokens; `None` where the embedding table has
    /// no row for a token.
    pub fn forward(&self, tokens: &Vec<u32>, cached: usize) -> (r: Option<Pass>)
        requires
            cached + tokens@.len() <= usize::MAX,
        ensures
            r is Some <==> all_have_rows(self.token_embd@, self.config.hidden_size as nat, tokens@),
            r matches Some(p) ==> p.begins(
                Order::TokenByToken,
                self.layers@.len(),
                cached as nat,
                self.token_embd@,
                self.config.hidden_size as nat,
                tokens@,
            ),
    {
        begin_token_pass(
            &self.token_embd,
            self.config.hidden_size,
            tokens,
            self.layers.len(),
            cached,
        )
    }

    /// Begins a pass that ends in the normed hidden state of the last token,
    /// before the output projection.
    pub fn embed(&self, tokens: &Vec<u32>, cached: usize) -> (r: Option<Pass>)
        requires
            cached + tokens@.len() <= usize::MAX,
        ensures
            r is Some <==> all_have_rows(self.token_embd@, self.config.hidden_size as nat, tokens@),
            r matches Some(p) ==> p.begins(
                Order::TokenByToken,
                self.layers@.len(),
                cached as nat,
                self.token_embd@,
                self.config.hidden_size as nat,
                tokens@,
            ),
    {
        self.forward(tokens, cached)
    }

    /// The table of angles.
    pub fn rope(&self) -> (t: RopeTable)
        requires
            self.config.max_context_length * (self.config.head_dim / 2) <= usize::MAX,
        ensures
            t.is_table(
                self.config.head_dim,
                self.config.max_context_length as nat,
                (Frequencies {
                    base: self.config.rope_freq_base,
                    scaling_type: self.config.rope_scaling_type,
                    scaling_factor: self.config.rope_scaling_factor,
                }),
            ),
    {
        RopeTable::new(
            self.config.head_dim,
            self.config.max_context_length,
            self.config.rope_freq_base,
            self.config.rope_scaling_type,
            self.config.rope_scaling_factor,
        )
    }

    /// Number of tokens in the vocabulary: the length of the logits.
    pub fn vocab_size(&self) -> (n: usize)
        ensures
            n == self.config.vocab_size,
    {
        self.config.vocab_size
    }

    /// Greatest number of tokens in a context.
    pub fn max_context_length(&self) -> (n: usize)
        ensures
            n == self.config.max_context_length,
    {
        self.config.max_context_length
    }

    /// Size of a hidden state: the length of an embedding.
    pub fn hidden_size(&self) -> (n: usize)
        ensures
            n == self.config.hidden_size,
    {
        self.config.hidden_size
    }

    /// Attaches the adapters of a file to the projections of the layers whose
    /// tensors they name.
    pub fn apply_lora(&mut self, lora: &LoadedLora) -> (r: ArchResult<()>)
        ensures
            r is Ok,
            final(self).config == old(self).config,
            final(self).token_embd == old(self).token_embd,
            final(self).output_norm == old(self).output_norm,
            final(self).output == old(self).output,
            final(self).logit_scale == old(self).logit_scale,
            final(self).layers@.len() == old(self).layers@.len(),
            forall|i: int|
                0 <= i < final(self).layers@.len() ==> layer_patched(
                    old(self).layers@[i],
                    #[trigger] final(self).layers@[i],
                    lora@,
                    i as nat,
                ),
    {
        let mut i: usize = 0;
        let ghost before = self.layers@;
        while i < self.layers.len()
            invariant
                i <= self.layers@.len(),
                self.layers@.len() == before.len(),
                before == old(self).layers@,
                self.config == old(self).config,
                self.token_embd == old(self).token_embd,
                self.output_norm == old(self).output_norm,
                self.output == old(self).output,
                self.logit_scale == old(self).logit_scale,
                forall|j: int|
                    0 <= j < i ==> layer_patched(
                        before[j],
                        #[trigger] self.layers@[j],
                        lora@,
                        j as nat,
                    ),
                forall|j: int| i <= j < before.len() ==> #[trigger] self.layers@[j] == before[j],
            decreases self.layers@.len() - i,
        {
            self.layers[i].apply_lora(lora, i);
            i = i + 1;
        }
        Ok(())
    }
}

/// Why block `i` cannot be loaded, if it cannot.
pub open spec fn layer_failure(m: TensorMap, i: nat) -> Option<ArchErrorView> {
    first_of(
        values_failure(m, block_tensor(i, ".attn_norm.weight"@)),
        first_of(
            values_failure(m, block_tensor(i, ".ffn_norm.weight"@)),
            first_of(
                bytes_failure(m, block_tensor(i, ".attn_q.weight"@)),
                first_of(
                    bytes_failure(m, block_tensor(i, ".attn_k.weight"@)),
                    first_of(
                        bytes_failure(m, block_tensor(i, ".attn_v.weight"@)),
                        first_of(
                            bytes_failure(m, block_tensor(i, ".attn_output.weight"@)),
                            first_of(
                                bytes_failure(m, block_tensor(i, ".ffn_gate.weight"@)),
                                first_of(
                                    bytes_failure(m, block_tensor(i, ".ffn_up.weight"@)),
                                    bytes_failure(m, block_tensor(i, ".ffn_down.weight"@)),
                                ),
                            ),
                        ),
                    ),
                ),
            ),
        ),
    )
}

/// The failures of the blocks.
pub open spec fn layer_failures(m: TensorMap) -> spec_fn(nat) -> Option<ArchErrorView> {
    |i: nat| layer_failure(m, i)
}

/// Why a model cannot be loaded, if it cannot. The norms of query and key heads
/// are optional.
pub open spec fn command_r_failure(m: TensorMap, layers: nat) -> Option<ArchErrorView> {
    first_of(
        embedding_failure(m, "token_embd.weight"@),
        first_of(
            first_failure(layer_failures(m), layers),
            first_of(
                values_failure(m, "output_norm.weight"@),
                bytes_failure(m, "output.weight"@),
            ),
        ),
    )
}

/// Whether a layer holds the tensors of block `i`.
pub open spec fn is_layer(l: CommandRLayer, m: TensorMap, eps: u32, i: nat) -> bool {
    &&& is_norm(l.attn_norm, m, block_tensor(i, ".attn_norm.weight"@), eps)
    &&& is_norm(l.ffn_norm, m, block_tensor(i, ".ffn_norm.weight"@), eps)
    &&& is_linear(l.attn_q, m, block_tensor(i, ".attn_q.weight"@))
    &&& is_linear(l.attn_k, m, block_tensor(i, ".attn_k.weight"@))
    &&& is_linear(l.attn_v, m, block_tensor(i, ".attn_v.weight"@))
    &&& is_linear(l.attn_output, m, block_tensor(i, ".attn_output.weight"@))
    &&& is_linear(l.ffn_gate, m, block_tensor(i, ".ffn_gate.weight"@))
    &&& is_linear(l.ffn_up, m, block_tensor(i, ".ffn_up.weight"@))
    &&& is_linear(l.ffn_down, m, block_tensor(i, ".ffn_down.weight"@))
    &&& is_optional_norm(l.attn_q_norm, m, block_tensor(i, ".attn_q_norm.weight"@), eps)
    &&& is_optional_norm(l.attn_k_norm, m, block_tensor(i, ".attn_k_norm.weight"@), eps)
}

/// Whether a model holds the tensors of a file.
pub open spec fn is_command_r(model: CommandRModel, m: TensorMap, c: ModelConfigView) -> bool {
    &&& model.config@ == c
    &&& model.token_embd@ == values_of(m, "token_embd.weight"@)
    &&& model.layers@.len() == c.num_layers
    &&& forall|i: int|
        0 <= i < model.layers@.len() ==> is_layer(
            #[trigger] model.layers@[i],
            m,
            c.rms_norm_eps,
            i as nat,
        )
    &&& is_norm(model.output_norm, m, "output_norm.weight"@, c.rms_norm_eps)
    &&& is_linear(model.output, m, "output.weight"@)
    &&& model.logit_scale == c.logit_scale
}

fn load_layer(model: &GgufModel, i: usize, eps: u32) -> (r: ArchResult<CommandRLayer>)
    ensures
        follows(r, layer_failure(model.tensors@, i as nat)),
        r matches Ok(l) ==> is_layer(l, model.tensors@, eps, i as nat),
{
    let attn_norm = load_rms_norm(model, block_name(i, ".attn_norm.weight").as_str(), eps)?;
    let ffn_norm = load_rms_norm(model, block_name(i, ".ffn_norm.weight").as_str(), eps)?;
    let attn_q = load_quant_linear(model, block_name(i, ".attn_q.weight").as_str())?;
    let attn_k = load_quant_linear(model, block_name(i, ".attn_k.weight").as_str())?;
    let attn_v = load_quant_linear(model, block_name(i, ".attn_v.weight").as_str())?;
    let attn_output = load_quant_linear(model, block_name(i, ".attn_output.weight").as_str())?;
    let ffn_gate = load_quant_linear(model, block_name(i, ".ffn_gate.weight").as_str())?;
    let ffn_up = load_quant_linear(model, block_name(i, ".ffn_up.weight").as_str())?;
    let ffn_down = load_quant_linear(model, block_name(i, ".ffn_down.weight").as_str())?;
    let attn_q_norm = load_optional_norm(model, block_name(i, ".attn_q_norm.weight").as_str(), eps);
    let attn_k_norm = load_optional_norm(model, block_name(i, ".attn_k_norm.weight").as_str(), eps);
    Ok(
        CommandRLayer {
            attn_norm,
            attn_q,
            attn_k,
            attn_v,
            attn_output,
            attn_q_norm,
            attn_k_norm,
            ffn_norm,
            ffn_gate,
            ffn_up,
            ffn_down,
        },
    )
}

/// Loads a model: every tensor by its name. The factor on the logits is that of
/// the configuration.
pub fn load_command_r_from_gguf(
    model: &GgufModel,
    config: &ModelConfig,
) -> (r: ArchResult<CommandRModel>)
    ensures
        follows(r, command_r_failure(model.tensors@, config.num_layers as nat)),
        r matches Ok(p) ==> is_command_r(p, model.tensors@, config@),
{
    let token_embd = load_embedding(model, "token_embd.weight")?;
    let ghost failures = layer_failures(model.tensors@);
    let mut layers: Vec<CommandRLayer> = Vec::new();
    let mut i: usize = 0;
    while i < config.num_layers
        invariant
            i <= config.num_layers,
            failures == layer_failures(model.tensors@),
            embedding_failure(model.tensors@, "token_embd.weight"@) is None,
            first_failure(failures, i as nat) is None,
            layers@.len() == i,
            forall|j: int|
                0 <= j < i ==> is_layer(
                    #[trigger] layers@[j],
                    model.tensors@,
                    config.rms_norm_eps,
                    j as nat,
                ),
        decreases config.num_layers - i,
    {
        match load_layer(model, i, config.rms_norm_eps) {
            Ok(l) => {
                layers.push(l);
            },
            Err(e) => {
                proof {
                    lemma_first_failure(failures, i as nat, config.num_layers as nat);
                }
                return Err(e);
            },
        }
        i = i + 1;
    }
    let output_norm = load_rms_norm(model, "output_norm.weight", config.rms_norm_eps)?;
    let output = load_quant_linear(model, "output.weight")?;
    Ok(
        CommandRModel::new(
            config.duplicate(),
            token_embd,
            layers,
            output_norm,
            output,
            config.logit_scale,
        ),
    )
}

/// Applying the same adapters a second time changes nothing.
pub proof fn law_lora_is_idempotent(
    a: CommandRLayer,
    b: CommandRLayer,
    c: CommandRLayer,
    adapters: Map<Seq<char>, Arc<LoraAdapter>>,
    i: nat,
)
    requires
        layer_patched(a, b, adapters, i),
        layer_patched(b, c, adapters, i),
    ensures
        c == b,
{
}

/// A file loads as a model of this family exactly where it loads as a dense
/// model of the LLaMA family, and fails for the same reason: the norms of query
/// and key heads decide nothing.
pub proof fn law_loads_as_llama(m: TensorMap, c: ModelConfigView)
    requires
        c.num_experts == 0,
    ensures
        command_r_failure(m, c.num_layers as nat) == llama_failure(m, c),
{
    lemma_layers_fail_as_in_llama(m, c, c.num_layers as nat);
}

proof fn lemma_layers_fail_as_in_llama(m: TensorMap, c: ModelConfigView, n: nat)
    requires
        c.num_experts == 0,
    ensures
        first_failure(layer_failures(m), n) == first_failure(
            crate::llama::layer_failures(m, c),
            n,
        ),
    decreases n,
{
    if n > 0 {
        lemma_layers_fail_as_in_llama(m, c, (n - 1) as nat);
    }
}

/// The factor on the logits touches nothing before them: models that are alike
/// in all else begin the same pass on the same tokens, and their heads read the
/// same places.
pub proof fn law_scale_touches_logits_only(
    a: CommandRModel,
    b: CommandRModel,
    first: Pass,
    second: Pass,
    first_plan: Seq<CausalReads>,
    second_plan: Seq<CausalReads>,
    tokens: Seq<u32>,
    cached: nat,
    position: int,
)
    requires
        b == (CommandRModel { logit_scale: b.logit_scale, ..a }),
        first.begins(
            Order::TokenByToken,
            a.layers@.len(),
            cached,
            a.token_embd@,
            a.config.hidden_size as nat,
            tokens,
        ),
        second.begins(
            Order::TokenByToken,
            b.layers@.len(),
            cached,
            b.token_embd@,
            b.config.hidden_size as nat,
            tokens,
        ),
        attends(first_plan, layout_of(a.config@), position, None),
        attends(second_plan, layout_of(b.config@), position, None),
    ensures
        first.shape == second.shape,
        first.states@ == second.states@,
        same_reads(first_plan, second_plan),
{
    law_attention_plans_are_unique(
        first_plan,
        second_plan,
        layout_of(a.config@),
        position,
        None,
    );
}

/// An adapter lands on the projection that is loaded from the tensor it names:
/// query, key, value, output, gating, up and down projections each take the
/// adapter under their own tensor's name, and stay as they were where there is
/// none.
pub proof fn law_adapters_land_where_they_are_named(
    a: CommandRModel,
    b: CommandRModel,
    adapters: Map<Seq<char>, Arc<LoraAdapter>>,
    i: int,
)
    requires
        b.output == a.output,
        b.layers@.len() == a.layers@.len(),
        forall|j: int|
            0 <= j < b.layers@.len() ==> layer_patched(
                a.layers@[j],
                #[trigger] b.layers@[j],
                adapters,
                j as nat,
            ),
        0 <= i < a.layers@.len(),
    ensures
        adapters.contains_key("blk."@ + decimal(i as nat) + ".attn_q.weight"@)
            ==> b.layers@[i].attn_q.lora
            == Some(adapters["blk."@ + decimal(i as nat) + ".attn_q.weight"@]),
        !adapters.contains_key("blk."@ + decimal(i as nat) + ".attn_q.weight"@)
            ==> b.layers@[i].attn_q == a.layers@[i].attn_q,
        b.layers@[i].attn_q.weight == a.layers@[i].attn_q.weight,
        b.layers@[i].attn_q.bias == a.layers@[i].attn_q.bias,
        adapters.contains_key("blk."@ + decimal(i as nat) + ".attn_k.weight"@)
            ==> b.layers@[i].attn_k.lora
            == Some(adapters["blk."@ + decimal(i as nat) + ".attn_k.weight"@]),
        !adapters.contains_key("blk."@ + decimal(i as nat) + ".attn_k.weight"@)
            ==> b.layers@[i].attn_k == a.layers@[i].attn_k,
        b.layers@[i].attn_k.weight == a.layers@[i].attn_k.weight,
        b.layers@[i].attn_k.bias == a.layers@[i].attn_k.bias,
        adapters.contains_key("blk."@ + decimal(i as nat) + ".attn_v.weight"@)
            ==> b.layers@[i].attn_v.lora
            == Some(adapters["blk."@ + decimal(i as nat) + ".attn_v.weight"@]),
        !adapters.contains_key("blk."@ + decimal(i as nat) + ".attn_v.weight"@)
            ==> b.layers@[i].attn_v == a.layers@[i].attn_v,
        b.layers@[i].attn_v.weight == a.layers@[i].attn_v.weight,
        b.layers@[i].attn_v.bias == a.layers@[i].attn_v.bias,
        adapters.contains_key("blk."@ + decimal(i as nat) + ".attn_output.weight"@)
            ==> b.layers@[i].attn_output.lora
            == Some(adapters["blk."@ + decimal(i as nat) + ".attn_output.weight"@]),
        !adapters.contains_key("blk."@ + decimal(i as nat) + ".attn_output.weight"@)
            ==> b.layers@[i].attn_output == a.layers@[i].attn_output,
        b.layers@[i].attn_output.weight == a.layers@[i].attn_output.weight,
        b.layers@[i].attn_output.bias == a.layers@[i].attn_output.bias,
        adapters.contains_key("blk."@ + decimal(i as nat) + ".ffn_gate.weight"@)
            ==> b.layers@[i].ffn_gate.lora
            == Some(adapters["blk."@ + decimal(i as nat) + ".ffn_gate.weight"@]),
        !adapters.contains_key("blk."@ + decimal(i as nat) + ".ffn_gate.weight"@)
            ==> b.layers@[i].ffn_gate == a.layers@[i].ffn_gate,
        b.layers@[i].ffn_gate.weight == a.layers@[i].ffn_gate.weight,
        b.layers@[i].ffn_gate.bias == a.layers@[i].ffn_gate.bias,
        adapters.contains_key("blk."@ + decimal(i as nat) + ".ffn_up.weight"@)
            ==> b.layers@[i].ffn_up.lora
            == Some(adapters["blk."@ + decimal(i as nat) + ".ffn_up.weight"@]),
        !adapters.contains_key("blk."@ + decimal(i as nat) + ".ffn_up.weight"@)
            ==> b.layers@[i].ffn_up == a.layers@[i].ffn_up,
        b.layers@[i].ffn_up.weight == a.layers@[i].ffn_up.weight,
        b.layers@[i].ffn_up.bias == a.layers@[i].ffn_up.bias,
        adapters.contains_key("blk."@ + decimal(i as nat) + ".ffn_down.weight"@)
            ==> b.layers@[i].ffn_down.lora
            == Some(adapters["blk."@ + decimal(i as nat) + ".ffn_down.weight"@]),
        !adapters.contains_key("blk."@ + decimal(i as nat) + ".ffn_down.weight"@)
            ==> b.layers@[i].ffn_down == a.layers@[i].ffn_down,
        b.layers@[i].ffn_down.weight == a.layers@[i].ffn_down.weight,
        b.layers@[i].ffn_down.bias == a.layers@[i].ffn_down.bias,
        b.layers@[i].attn_norm == a.layers@[i].attn_norm,
        b.layers@[i].ffn_norm == a.layers@[i].ffn_norm,
        b.layers@[i].attn_q_norm == a.layers@[i].attn_q_norm,
        b.layers@[i].attn_k_norm == a.layers@[i].attn_k_norm,
{
    assert(layer_patched(a.layers@[i], b.layers@[i], adapters, i as nat));
}

/// A file with one adapter changes one projection: the one of the named part in
/// the named layer. All others keep what they had.
#[verifier::rlimit(40)]
pub proof fn law_one_adapter_changes_one_projection(
    a: CommandRModel,
    b: CommandRModel,
    i: int,
    s: Seq<char>,
    x: Arc<LoraAdapter>,
    adapters: Map<Seq<char>, Arc<LoraAdapter>>,
)
    requires
        b.output == a.output,
        b.layers@.len() == a.layers@.len(),
        forall|j: int|
            0 <= j < b.layers@.len() ==> layer_patched(
                a.layers@[j],
                #[trigger] b.layers@[j],
                adapters,
                j as nat,
            ),
        0 <= i < a.layers@.len(),
        s.len() > 0,
        s[0] == '.',
        adapters == Map::<Seq<char>, Arc<LoraAdapter>>::empty().insert(
            "blk."@ + decimal(i as nat) + s,
            x,
        ),
    ensures
        s == ".attn_q.weight"@ ==> b.layers@[i].attn_q.lora == Some(x),
        s != ".attn_q.weight"@ ==> b.layers@[i].attn_q == a.layers@[i].attn_q,
        s == ".attn_k.weight"@ ==> b.layers@[i].attn_k.lora == Some(x),
        s != ".attn_k.weight"@ ==> b.layers@[i].attn_k == a.layers@[i].attn_k,
        s == ".attn_v.weight"@ ==> b.layers@[i].attn_v.lora == Some(x),
        s != ".attn_v.weight"@ ==> b.layers@[i].attn_v == a.layers@[i].attn_v,
        s == ".attn_output.weight"@ ==> b.layers@[i].attn_output.lora == Some(x),
        s != ".attn_output.weight"@ ==> b.layers@[i].attn_output == a.layers@[i].attn_output,
        s == ".ffn_gate.weight"@ ==> b.layers@[i].ffn_gate.lora == Some(x),
        s != ".ffn_gate.weight"@ ==> b.layers@[i].ffn_gate == a.layers@[i].ffn_gate,
        s == ".ffn_up.weight"@ ==> b.layers@[i].ffn_up.lora == Some(x),
        s != ".ffn_up.weight"@ ==> b.layers@[i].ffn_up == a.layers@[i].ffn_up,
        s == ".ffn_down.weight"@ ==> b.layers@[i].ffn_down.lora == Some(x),
        s != ".ffn_down.weight"@ ==> b.layers@[i].ffn_down == a.layers@[i].ffn_down,
        forall|j: int| 0 <= j < a.layers@.len() && j != i
            ==> #[trigger] b.layers@[j] == a.layers@[j],
        b.output == a.output,
{
    let name = block_tensor(i as nat, s);
    reveal_strlit(".attn_q.weight");
    reveal_strlit(".attn_k.weight");
    reveal_strlit(".attn_v.weight");
    reveal_strlit(".attn_output.weight");
    reveal_strlit(".ffn_gate.weight");
    reveal_strlit(".ffn_up.weight");
    reveal_strlit(".ffn_down.weight");
    reveal_strlit("output.weight");
    reveal_strlit("blk.");
    assert(name[0] == 'b');
    assert("output.weight"@[0] == 'o');
    assert(layer_patched(a.layers@[i], b.layers@[i], adapters, i as nat));
    if name == block_tensor(i as nat, ".attn_q.weight"@) {
        law_block_tensors_are_distinct(i as nat, s, i as nat, ".attn_q.weight"@);
    }
    if name == block_tensor(i as nat, ".attn_k.weight"@) {
        law_block_tensors_are_distinct(i as nat, s, i as nat, ".attn_k.weight"@);
    }
    if name == block_tensor(i as nat, ".attn_v.weight"@) {
        law_block_tensors_are_distinct(i as nat, s, i as nat, ".attn_v.weight"@);
    }
    if name == block_tensor(i as nat, ".attn_output.weight"@) {
        law_block_tensors_are_distinct(i as nat, s, i as nat, ".attn_output.weight"@);
    }
    if name == block_tensor(i as nat, ".ffn_gate.weight"@) {
        law_block_tensors_are_distinct(i as nat, s, i as nat, ".ffn_gate.weight"@);
    }
    if name == block_tensor(i as nat, ".ffn_up.weight"@) {
        law_block_tensors_are_distinct(i as nat, s, i as nat, ".ffn_up.weight"@);
    }
    if name == block_tensor(i as nat, ".ffn_down.weight"@) {
        law_block_tensors_are_distinct(i as nat, s, i as nat, ".ffn_down.weight"@);
    }
    assert forall|j: int| 0 <= j < a.layers@.len() && j != i implies #[trigger] b.layers@[j]
        == a.layers@[j] by {
        assert(layer_patched(a.layers@[j], b.layers@[j], adapters, j as nat));
        if name == block_tensor(j as nat, ".attn_q.weight"@) {
            law_block_tensors_are_distinct(i as nat, s, j as nat, ".attn_q.weight"@);
        }
        if name == block_tensor(j as nat, ".attn_k.weight"@) {
            law_block_tensors_are_distinct(i as nat, s, j as nat, ".attn_k.weight"@);
        }
        if name == block_tensor(j as nat, ".attn_v.weight"@) {
            law_block_tensors_are_distinct(i as nat, s, j as nat, ".attn_v.weight"@);
        }
        if name == block_tensor(j as nat, ".attn_output.weight"@) {
            law_block_tensors_are_distinct(i as nat, s, j as nat, ".attn_output.weight"@);
        }
        if name == block_tensor(j as nat, ".ffn_gate.weight"@) {
            law_block_tensors_are_distinct(i as nat, s, j as nat, ".ffn_gate.weight"@);
        }
        if name == block_tensor(j as nat, ".ffn_up.weight"@) {
            law_block_tensors_are_distinct(i as nat, s, j as nat, ".ffn_up.weight"@);
        }
        if name == block_tensor(j as nat, ".ffn_down.weight"@) {
            law_block_tensors_are_distinct(i as nat, s, j as nat, ".ffn_down.weight"@);
        }
    }
}

/// In a loaded model every weight is that of the tensor that is named after it:
/// `blk.{i}` and the name of the part for layer `i`, and the bare name for the
/// parts that the layers share.
pub proof fn law_tensors_are_where_their_names_say(
    model: CommandRModel,
    m: TensorMap,
    c: ModelConfigView,
    i: int,
)
    requires
        is_command_r(model, m, c),
        0 <= i < model.layers@.len(),
    ensures
        model.layers@[i].attn_norm.weight@
            == m["blk."@ + decimal(i as nat) + ".attn_norm.weight"@].decode()->Ok_0,
        model.layers@[i].attn_norm.eps == c.rms_norm_eps,
        model.layers@[i].ffn_norm.weight@
            == m["blk."@ + decimal(i as nat) + ".ffn_norm.weight"@].decode()->Ok_0,
        model.layers@[i].ffn_norm.eps == c.rms_norm_eps,
        m["blk."@ + decimal(i as nat) + ".attn_q.weight"@].bytes()
            == Some(model.layers@[i].attn_q.weight.data@),
        model.layers@[i].attn_q.weight.shape@
            == m["blk."@ + decimal(i as nat) + ".attn_q.weight"@].dims(),
        model.layers@[i].attn_q.weight.tensor_type
            == m["blk."@ + decimal(i as nat) + ".attn_q.weight"@].kind(),
        model.layers@[i].attn_q.lora is None,
        model.layers@[i].attn_q.bias is None,
        m["blk."@ + decimal(i as nat) + ".attn_k.weight"@].bytes()
            == Some(model.layers@[i].attn_k.weight.data@),
        model.layers@[i].attn_k.weight.shape@
            == m["blk."@ + decimal(i as nat) + ".attn_k.weight"@].dims(),
        model.layers@[i].attn_k.weight.tensor_type
            == m["blk."@ + decimal(i as nat) + ".attn_k.weight"@].kind(),
        model.layers@[i].attn_k.lora is None,
        model.layers@[i].attn_k.bias is None,
        m["blk."@ + decimal(i as nat) + ".attn_v.weight"@].bytes()
            == Some(model.layers@[i].attn_v.weight.data@),
        model.layers@[i].attn_v.weight.shape@
            == m["blk."@ + decimal(i as nat) + ".attn_v.weight"@].dims(),
        model.layers@[i].attn_v.weight.tensor_type
            == m["blk."@ + decimal(i as nat) + ".attn_v.weight"@].kind(),
        model.layers@[i].attn_v.lora is None,
        model.layers@[i].attn_v.bias is None,
        m["blk."@ + decimal(i as nat) + ".attn_output.weight"@].bytes()
            == Some(model.layers@[i].attn_output.weight.data@),
        model.layers@[i].attn_output.weight.shape@
            == m["blk."@ + decimal(i as nat) + ".attn_output.weight"@].dims(),
        model.layers@[i].attn_output.weight.tensor_type
            == m["blk."@ + decimal(i as nat) + ".attn_output.weight"@].kind(),
        model.layers@[i].attn_output.lora is None,
        model.layers@[i].attn_output.bias is None,
        m["blk."@ + decimal(i as nat) + ".ffn_gate.weight"@].bytes()
            == Some(model.layers@[i].ffn_gate.weight.data@),
        model.layers@[i].ffn_gate.weight.shape@
            == m["blk."@ + decimal(i as nat) + ".ffn_gate.weight"@].dims(),
        model.layers@[i].ffn_gate.weight.tensor_type
            == m["blk."@ + decimal(i as nat) + ".ffn_gate.weight"@].kind(),
        model.layers@[i].ffn_gate.lora is None,
        model.layers@[i].ffn_gate.bias is None,
        m["blk."@ + decimal(i as nat) + ".ffn_up.weight"@].bytes()
            == Some(model.layers@[i].ffn_up.weight.data@),
        model.layers@[i].ffn_up.weight.shape@
            == m["blk."@ + decimal(i as nat) + ".ffn_up.weight"@].dims(),
        model.layers@[i].ffn_up.weight.tensor_type
            == m["blk."@ + decimal(i as nat) + ".ffn_up.weight"@].kind(),
        model.layers@[i].ffn_up.lora is None,
        model.layers@[i].ffn_up.bias is None,
        m["blk."@ + decimal(i as nat) + ".ffn_down.weight"@].bytes()
            == Some(model.layers@[i].ffn_down.weight.data@),
        model.layers@[i].ffn_down.weight.shape@
            == m["blk."@ + decimal(i as nat) + ".ffn_down.weight"@].dims(),
        model.layers@[i].ffn_down.weight.tensor_type
            == m["blk."@ + decimal(i as nat) + ".ffn_down.weight"@].kind(),
        model.layers@[i].ffn_down.lora is None,
        model.layers@[i].ffn_down.bias is None,
        model.layers@[i].attn_q_norm is Some
            <==> m.contains_key("blk."@ + decimal(i as nat) + ".attn_q_norm.weight"@)
            && m["blk."@ + decimal(i as nat) + ".attn_q_norm.weight"@].bytes() is Some
            && m["blk."@ + decimal(i as nat) + ".attn_q_norm.weight"@].decode() is Ok,
        model.layers@[i].attn_q_norm matches Some(n)
            ==> n.weight@
            == m["blk."@ + decimal(i as nat) + ".attn_q_norm.weight"@].decode()->Ok_0
            && n.eps == c.rms_norm_eps,
        model.layers@[i].attn_k_norm is Some
            <==> m.contains_key("blk."@ + decimal(i as nat) + ".attn_k_norm.weight"@)
            && m["blk."@ + decimal(i as nat) + ".attn_k_norm.weight"@].bytes() is Some
            && m["blk."@ + decimal(i as nat) + ".attn_k_norm.weight"@].decode() is Ok,
        model.layers@[i].attn_k_norm matches Some(n)
            ==> n.weight@
            == m["blk."@ + decimal(i as nat) + ".attn_k_norm.weight"@].decode()->Ok_0
            && n.eps == c.rms_norm_eps,
        model.layers@.len() == c.num_layers,
        model.token_embd@ == m["token_embd.weight"@].decode()->Ok_0,
        model.output_norm.weight@ == m["output_norm.weight"@].decode()->Ok_0,
        model.output_norm.eps == c.rms_norm_eps,
        m["output.weight"@].bytes() == Some(model.output.weight.data@),
        model.output.weight.shape@ == m["output.weight"@].dims(),
        model.output.weight.tensor_type == m["output.weight"@].kind(),
        model.output.lora is None,
        model.output.bias is None,
        model.logit_scale == c.logit_scale,
{
    assert(is_layer(model.layers@[i], m, c.rms_norm_eps, i as nat));
}

/// The family names its tensors in this order, says which of them a model cannot do
/// without, and describes each.
pub proof fn law_tensors_are_named_in_order(a: CommandRArchitecture)
    ensures
        a.id() == "command-r"@,
        a.tensors() == command_r_patterns(),
        command_r_patterns().len() == 14,
        command_r_patterns()[0].pattern == "token_embd.weight"@ && command_r_patterns()[0].required,
        command_r_patterns()[1].pattern == "output_norm.weight"@
            && command_r_patterns()[1].required,
        command_r_patterns()[2].pattern == "output.weight"@ && command_r_patterns()[2].required,
        command_r_patterns()[3].pattern == "blk.{i}.attn_norm.weight"@
            && command_r_patterns()[3].required,
        command_r_patterns()[4].pattern == "blk.{i}.attn_q.weight"@
            && command_r_patterns()[4].required,
        command_r_patterns()[5].pattern == "blk.{i}.attn_k.weight"@
            && command_r_patterns()[5].required,
        command_r_patterns()[6].pattern == "blk.{i}.attn_v.weight"@
            && command_r_patterns()[6].required,
        command_r_patterns()[7].pattern == "blk.{i}.attn_output.weight"@
            && command_r_patterns()[7].required,
        command_r_patterns()[8].pattern == "blk.{i}.attn_q_norm.weight"@
            && !command_r_patterns()[8].required,
        command_r_patterns()[9].pattern == "blk.{i}.attn_k_norm.weight"@
            && !command_r_patterns()[9].required,
        command_r_patterns()[10].pattern == "blk.{i}.ffn_norm.weight"@
            && command_r_patterns()[10].required,
        command_r_patterns()[11].pattern == "blk.{i}.ffn_gate.weight"@
            && command_r_patterns()[11].required,
        command_r_patterns()[12].pattern == "blk.{i}.ffn_up.weight"@
            && command_r_patterns()[12].required,
        command_r_patterns()[13].pattern == "blk.{i}.ffn_down.weight"@
            && command_r_patterns()[13].required,
        command_r_patterns()[0].description == "Token embedding matrix"@,
        command_r_patterns()[1].description == "Final RMSNorm"@,
        command_r_patterns()[2].description == "LM head / unembedding"@,
        command_r_patterns()[3].description == "Pre-attention RMSNorm"@,
        command_r_patterns()[4].description == "Query projection"@,
        command_r_patterns()[5].description == "Key projection"@,
        command_r_patterns()[6].description == "Value projection"@,
        command_r_patterns()[7].description == "Attention output projection"@,
        command_r_patterns()[8].description == "Q normalization (Command-R+)"@,
        command_r_patterns()[9].description == "K normalization (Command-R+)"@,
        command_r_patterns()[10].description == "Pre-FFN RMSNorm"@,
        command_r_patterns()[11].description == "FFN gate projection"@,
        command_r_patterns()[12].description == "FFN up projection"@,
        command_r_patterns()[13].description == "FFN down projection"@,
{
}

/// A model loads exactly where every tensor that it needs is there and can be had:
/// those that the layers share, and those of each of its layers.
#[verifier::rlimit(40)]
pub proof fn law_model_loads_where_its_tensors_are_there(m: TensorMap, layers: nat)
    ensures
        command_r_failure(m, layers) is None <==> {
            &&& embedding_failure(m, "token_embd.weight"@) is None
            &&& forall|i: nat|
                #![trigger decimal(i)]
                i < layers ==> {
                    &&& values_failure(m, "blk."@ + decimal(i) + ".attn_norm.weight"@) is None
                    &&& values_failure(m, "blk."@ + decimal(i) + ".ffn_norm.weight"@) is None
                    &&& bytes_failure(m, "blk."@ + decimal(i) + ".attn_q.weight"@) is None
                    &&& bytes_failure(m, "blk."@ + decimal(i) + ".attn_k.weight"@) is None
                    &&& bytes_failure(m, "blk."@ + decimal(i) + ".attn_v.weight"@) is None
                    &&& bytes_failure(m, "blk."@ + decimal(i) + ".attn_output.weight"@) is None
                    &&& bytes_failure(m, "blk."@ + decimal(i) + ".ffn_gate.weight"@) is None
                    &&& bytes_failure(m, "blk."@ + decimal(i) + ".ffn_up.weight"@) is None
                    &&& bytes_failure(m, "blk."@ + decimal(i) + ".ffn_down.weight"@) is None
                }
            &&& values_failure(m, "output_norm.weight"@) is None
            &&& bytes_failure(m, "output.weight"@) is None
        },
{
    let f = layer_failures(m);
    let n = layers as nat;
    law_first_failing_part_is_reported(f, n);
    assert forall|i: nat|
        #![trigger decimal(i)]
        i < n && first_failure(f, n) is None implies {
        &&& values_failure(m, "blk."@ + decimal(i) + ".attn_norm.weight"@) is None
        &&& values_failure(m, "blk."@ + decimal(i) + ".ffn_norm.weight"@) is None
        &&& bytes_failure(m, "blk."@ + decimal(i) + ".attn_q.weight"@) is None
        &&& bytes_failure(m, "blk."@ + decimal(i) + ".attn_k.weight"@) is None
        &&& bytes_failure(m, "blk."@ + decimal(i) + ".attn_v.weight"@) is None
        &&& bytes_failure(m, "blk."@ + decimal(i) + ".attn_output.weight"@) is None
        &&& bytes_failure(m, "blk."@ + decimal(i) + ".ffn_gate.weight"@) is None
        &&& bytes_failure(m, "blk."@ + decimal(i) + ".ffn_up.weight"@) is None
        &&& bytes_failure(m, "blk."@ + decimal(i) + ".ffn_down.weight"@) is None
    } by {
        assert(f(i) is None);
        assert(layer_failure(m, i) is None);
    }
    if forall|i: nat|
        #![trigger decimal(i)]
        i < n ==> {
            &&& values_failure(m, "blk."@ + decimal(i) + ".attn_norm.weight"@) is None
            &&& values_failure(m, "blk."@ + decimal(i) + ".ffn_norm.weight"@) is None
            &&& bytes_failure(m, "blk."@ + decimal(i) + ".attn_q.weight"@) is None
            &&& bytes_failure(m, "blk."@ + decimal(i) + ".attn_k.weight"@) is None
            &&& bytes_failure(m, "blk."@ + decimal(i) + ".attn_v.weight"@) is None
            &&& bytes_failure(m, "blk."@ + decimal(i) + ".attn_output.weight"@) is None
            &&& bytes_failure(m, "blk."@ + decimal(i) + ".ffn_gate.weight"@) is None
            &&& bytes_failure(m, "blk."@ + decimal(i) + ".ffn_up.weight"@) is None
            &&& bytes_failure(m, "blk."@ + decimal(i) + ".ffn_down.weight"@) is None
        } {
        assert forall|i: nat| i < n implies (#[trigger] f(i)) is None by {
            let d = decimal(i);
            assert(layer_failure(m, i) is None);
        }
    }
}

/// Of the tensors of a block the first that cannot be had, in the order of loading,
/// is the one that is reported.
pub proof fn law_first_missing_part_of_a_block_is_reported(m: TensorMap, layers: nat, i: nat)
    ensures
        values_failure(m, "blk."@ + decimal(i) + ".attn_norm.weight"@) is Some
            ==> layer_failure(m, i)
            == values_failure(m, "blk."@ + decimal(i) + ".attn_norm.weight"@),
        values_failure(m, "blk."@ + decimal(i) + ".attn_norm.weight"@) is None
            && values_failure(m, "blk."@ + decimal(i) + ".ffn_norm.weight"@) is Some
            ==> layer_failure(m, i)
            == values_failure(m, "blk."@ + decimal(i) + ".ffn_norm.weight"@),
        values_failure(m, "blk."@ + decimal(i) + ".attn_norm.weight"@) is None
            && values_failure(m, "blk."@ + decimal(i) + ".ffn_norm.weight"@) is None
            && bytes_failure(m, "blk."@ + decimal(i) + ".attn_q.weight"@) is Some
            ==> layer_failure(m, i) == bytes_failure(m, "blk."@ + decimal(i) + ".attn_q.weight"@),
        values_failure(m, "blk."@ + decimal(i) + ".attn_norm.weight"@) is None
            && values_failure(m, "blk."@ + decimal(i) + ".ffn_norm.weight"@) is None
            && bytes_failure(m, "blk."@ + decimal(i) + ".attn_q.weight"@) is None
            && bytes_failure(m, "blk."@ + decimal(i) + ".attn_k.weight"@) is Some
            ==> layer_failure(m, i) == bytes_failure(m, "blk."@ + decimal(i) + ".attn_k.weight"@),
        values_failure(m, "blk."@ + decimal(i) + ".attn_norm.weight"@) is None
            && values_failure(m, "blk."@ + decimal(i) + ".ffn_norm.weight"@) is None
            && bytes_failure(m, "blk."@ + decimal(i) + ".attn_q.weight"@) is None
            && bytes_failure(m, "blk."@ + decimal(i) + ".attn_k.weight"@) is None
            && bytes_failure(m, "blk."@ + decimal(i) + ".attn_v.weight"@) is Some
            ==> layer_failure(m, i) == bytes_failure(m, "blk."@ + decimal(i) + ".attn_v.weight"@),
        values_failure(m, "blk."@ + decimal(i) + ".attn_norm.weight"@) is None
            && values_failure(m, "blk."@ + decimal(i) + ".ffn_norm.weight"@) is None
            && bytes_failure(m, "blk."@ + decimal(i) + ".attn_q.weight"@) is None
            && bytes_failure(m, "blk."@ + decimal(i) + ".attn_k.weight"@) is None
            && bytes_failure(m, "blk."@ + decimal(i) + ".attn_v.weight"@) is None
            && bytes_failure(m, "blk."@ + decimal(i) + ".attn_output.weight"@) is Some
            ==> layer_failure(m, i)
            == bytes_failure(m, "blk."@ + decimal(i) + ".attn_output.weight"@),
        values_failure(m, "blk."@ + decimal(i) + ".attn_norm.weight"@) is None
            && values_failure(m, "blk."@ + decimal(i) + ".ffn_norm.weight"@) is None
            && bytes_failure(m, "blk."@ + decimal(i) + ".attn_q.weight"@) is None
            && bytes_failure(m, "blk."@ + decimal(i) + ".attn_k.weight"@) is None
            && bytes_failure(m, "blk."@ + decimal(i) + ".attn_v.weight"@) is None
            && bytes_failure(m, "blk."@ + decimal(i) + ".attn_output.weight"@) is None
            && bytes_failure(m, "blk."@ + decimal(i) + ".ffn_gate.weight"@) is Some
            ==> layer_failure(m, i) == bytes_failure(m, "blk."@ + decimal(i) + ".ffn_gate.weight"@),
        values_failure(m, "blk."@ + decimal(i) + ".attn_norm.weight"@) is None
            && values_failure(m, "blk."@ + decimal(i) + ".ffn_norm.weight"@) is None
            && bytes_failure(m, "blk."@ + decimal(i) + ".attn_q.weight"@) is None
            && bytes_failure(m, "blk."@ + decimal(i) + ".attn_k.weight"@) is None
            && bytes_failure(m, "blk."@ + decimal(i) + ".attn_v.weight"@) is None
            && bytes_failure(m, "blk."@ + decimal(i) + ".attn_output.weight"@) is None
            && bytes_failure(m, "blk."@ + decimal(i) + ".ffn_gate.weight"@) is None
            && bytes_failure(m, "blk."@ + decimal(i) + ".ffn_up.weight"@) is Some
            ==> layer_failure(m, i) == bytes_failure(m, "blk."@ + decimal(i) + ".ffn_up.weight"@),
        values_failure(m, "blk."@ + decimal(i) + ".attn_norm.weight"@) is None
            && values_failure(m, "blk."@ + decimal(i) + ".ffn_norm.weight"@) is None
            && bytes_failure(m, "blk."@ + decimal(i) + ".attn_q.weight"@) is None
            && bytes_failure(m, "blk."@ + decimal(i) + ".attn_k.weight"@) is None
            && bytes_failure(m, "blk."@ + decimal(i) + ".attn_v.weight"@) is None
            && bytes_failure(m, "blk."@ + decimal(i) + ".attn_output.weight"@) is None
            && bytes_failure(m, "blk."@ + decimal(i) + ".ffn_gate.weight"@) is None
            && bytes_failure(m, "blk."@ + decimal(i) + ".ffn_up.weight"@) is None
            && bytes_failure(m, "blk."@ + decimal(i) + ".ffn_down.weight"@) is Some
            ==> layer_failure(m, i) == bytes_failure(m, "blk."@ + decimal(i) + ".ffn_down.weight"@),
{
}

/// What is reported of a model is the first failure in the order of loading: the
/// embedding table, then one block after another, then what follows the blocks.
pub proof fn law_blocks_are_loaded_in_order(m: TensorMap, layers: nat, k: nat)
    ensures
        embedding_failure(m, "token_embd.weight"@) is Some
            ==> command_r_failure(m, layers) == embedding_failure(m, "token_embd.weight"@),
        embedding_failure(m, "token_embd.weight"@) is None && k < layers
            && layer_failure(m, k) is Some && (forall|j: nat|
            #![trigger decimal(j)]
            j < k ==> layer_failure(m, j) is None)
                ==> command_r_failure(m, layers) == layer_failure(m, k),
{
    let f = layer_failures(m);
    law_first_failing_part_is_reported(f, layers as nat);
    if k < layers && layer_failure(m, k) is Some && (forall|j: nat|
        #![trigger decimal(j)]
        j < k ==> layer_failure(m, j) is None) {
        assert(f(k) is Some);
        assert forall|j: nat| j < k implies (#[trigger] f(j)) is None by {
            let d = decimal(j);
        }
    }
}

} // verus!
