//! Gemma: a decoder with norms on both sides and alternating windows.

use crate::bits::{is_positive, positive, F32_ZERO};
use crate::common::embedding::{all_have_rows, embedding_row, has_row, row_of};
use crate::common::heads::{
    attends, can_attend, head_layout, law_only_rows_in_view_are_read, layout_of, plan_attention,
    window_start_of, CausalReads,
};
use crate::common::linear::QuantLinear;
use crate::common::load::{
    bytes_failure, embedding_failure, is_linear, is_norm, is_optional_norm, load_embedding,
    load_optional_norm, load_quant_linear, load_rms_norm, values_failure, values_of,
};
use crate::common::norm::RmsNorm;
use crate::common::pass::{begin_token_pass, Order, Pass};
use crate::common::rope::{Frequencies, RopeTable};
use crate::common::sizes::row_starts;
use crate::config::{ModelConfig, ModelConfigView};
use crate::error::{
    first_failure, first_of, follows, law_first_failing_part_is_reported, lemma_first_failure,
    ArchErrorView, ArchResult,
};
use crate::gguf::{GgufModel, TensorMap};
use crate::metadata::{bits_or, meta_f32, MetadataMap};
use crate::text::{block_name, block_tensor, decimal, joined};
use vstd::prelude::*;

verus! {

/// The weights of one layer.
#[derive(Debug)]
pub struct GemmaLayer {
    /// Norm before attention.
    pub attn_norm: RmsNorm,
    /// Norm after attention.
    pub attn_post_norm: Option<RmsNorm>,
    /// Query projection.
    pub attn_q: QuantLinear,
    /// Key projection.
    pub attn_k: QuantLinear,
    /// Value projection.
    pub attn_v: QuantLinear,
    /// Output projection of attention.
    pub attn_output: QuantLinear,
    /// Norm before the feed-forward network.
    pub ffn_norm: RmsNorm,
    /// Norm after the feed-forward network.
    pub ffn_post_norm: Option<RmsNorm>,
    /// Gate projection.
    pub ffn_gate: QuantLinear,
    /// Up projection.
    pub ffn_up: QuantLinear,
    /// Down projection.
    pub ffn_down: QuantLinear,
    /// Whether attention has a window.
    pub use_sliding_window: bool,
}

/// A loaded model.
#[derive(Debug)]
pub struct GemmaModel {
    /// The configuration.
    pub config: ModelConfig,
    /// The embedding table, one row for each token.
    pub token_embd: Vec<u32>,
    /// The layers.
    pub layers: Vec<GemmaLayer>,
    /// Norm before the output projection.
    pub output_norm: RmsNorm,
    /// Output projection. Without one, logits are products with the rows of the
    /// embedding table.
    pub output: Option<QuantLinear>,
    /// Window of the layers with a window.
    pub sliding_window: Option<usize>,
    /// Bound of attention scores, as a pattern; none where it is not positive.
    pub attn_logit_softcap: u32,
    /// Bound of logits, as a pattern; none where it is not positive.
    pub final_logit_softcap: u32,
}

/// Where logits come from.
#[derive(Debug)]
pub enum LogitSource {
    /// From the output projection.
    Projection,
    /// From the rows of the embedding table, which begin at these places.
    Tied(Vec<usize>),
}

impl GemmaModel {
    /// A model of given weights. Its window is that of its configuration.
    pub fn new(
        config: ModelConfig,
        token_embd: Vec<u32>,
        layers: Vec<GemmaLayer>,
        output_norm: RmsNorm,
        output: Option<QuantLinear>,
        attn_logit_softcap: u32,
        final_logit_softcap: u32,
    ) -> (m: Self)
        ensures
            m.config == config,
            m.token_embd == token_embd,
            m.layers == layers,
            m.output_norm == output_norm,
            m.output == output,
            m.sliding_window == config.sliding_window,
            m.attn_logit_softcap == attn_logit_softcap,
            m.final_logit_softcap == final_logit_softcap,
    {
        let sliding_window = config.sliding_window;
        GemmaModel {
            config,
            token_embd,
            layers,
            output_norm,
            output,
            sliding_window,
            attn_logit_softcap,
            final_logit_softcap,
        }
    }

    /// The row of a token; `None` where the embedding table has none. The hidden
    /// state before the first layer is the row times the root of its length.
    pub fn embed_token(&self, token: u32) -> (r: Option<Vec<u32>>)
        ensures
            match r {
                Some(v) => has_row(
                    self.token_embd@,
                    self.config.hidden_size as nat,
                    token as nat,
                ) && v@ == row_of(self.token_embd@, self.config.hidden_size as nat, token as nat),
                None => !has_row(self.token_embd@, self.config.hidden_size as nat, token as nat),
            },
    {
        embedding_row(&self.token_embd, self.config.hidden_size, token)
    }

    /// Begins a pass after `cached` tokens; `None` where the embedding table has
    /// no row for a token.
    pub fn forward(&self, tokens: &Vec<u32>, cached: usize) -> (r: Option<Pass>)
        requires
            cached + tokens@.len() <= usize::MAX,
        ensures
            r is Some <==> all_have_rows(self.token_embd@, self.config.hidden_size as nat, tokens@),
            r matches Some(p) ==> p.begins(
                Order::TokenByToken,
                self.layers@.len(),
                cached as nat,
                self.token_embd@,
                self.config.hidden_size as nat,
                tokens@,
            ),
    {
        begin_token_pass(
            &self.token_embd,
            self.config.hidden_size,
            tokens,
            self.layers.len(),
            cached,
        )
    }

    /// Begins a pass that ends in the normed hidden state of the last token,
    /// before the output projection.
    pub fn embed(&self, tokens: &Vec<u32>, cached: usize) -> (r: Option<Pass>)
        requires
            cached + tokens@.len() <= usize::MAX,
        ensures
            r is Some <==> all_have_rows(self.token_embd@, self.config.hidden_size as nat, tokens@),
            r matches Some(p) ==> p.begins(
                Order::TokenByToken,
                self.layers@.len(),
                cached as nat,
                self.token_embd@,
                self.config.hidden_size as nat,
                tokens@,
            ),
    {
        self.forward(tokens, cached)
    }

    /// The window of a layer.
    pub open spec fn window(&self, layer: int) -> Option<usize> {
        if self.layers@[layer].use_sliding_window {
            self.sliding_window
        } else {
            None
        }
    }

    /// Plans what the heads of a layer read when a token attends: the positions
    /// up to its own that the layer's window leaves in view.
    pub fn attention(&self, layer_idx: usize, position: usize) -> (plan: Vec<CausalReads>)
        requires
            layer_idx < self.layers@.len(),
            self.config.num_kv_heads > 0,
            can_attend(layout_of(self.config@), position as int),
        ensures
            attends(
                plan@,
                layout_of(self.config@),
                position as int,
                self.window(layer_idx as int),
            ),
    {
        let window: Option<usize> = if self.layers[layer_idx].use_sliding_window {
            self.sliding_window
        } else {
            None
        };
        plan_attention(&head_layout(&self.config), position, window)
    }

    /// Whether attention scores are bounded.
    pub fn caps_attention(&self) -> (b: bool)
        ensures
            b == is_positive(self.attn_logit_softcap),
    {
        positive(self.attn_logit_softcap)
    }

    /// Whether logits are bounded.
    pub fn caps_logits(&self) -> (b: bool)
        ensures
            b == is_positive(self.final_logit_softcap),
    {
        positive(self.final_logit_softcap)
    }

    /// Says where logits come from.
    pub fn compute_logits(&self) -> (s: LogitSource)
        requires
            self.output is None ==> self.config.vocab_size * self.config.hidden_size
                <= self.token_embd@.len(),
        ensures
            match s {
                LogitSource::Projection => self.output is Some,
                LogitSource::Tied(rows) => {
                    &&& self.output is None
                    &&& rows@.len() == self.config.vocab_size
                    &&& forall|v: int|
                        0 <= v < rows@.len() ==> {
                            &&& #[trigger] rows@[v] == v * self.config.hidden_size
                            &&& has_row(
                                self.token_embd@,
                                self.config.hidden_size as nat,
                                v as nat,
                            )
                        }
                },
            },
    {
        if self.output.is_some() {
            return LogitSource::Projection;
        }
        let rows = row_starts(
            self.config.vocab_size,
            self.config.hidden_size,
            self.token_embd.len(),
        );
        LogitSource::Tied(rows)
    }

    /// The table of angles.
    pub fn rope(&self) -> (t: RopeTable)
        requires
            self.config.max_context_length * (self.config.head_dim / 2) <= usize::MAX,
        ensures
            t.is_table(
                self.config.head_dim,
                self.config.max_context_length as nat,
                (Frequencies {
                    base: self.config.rope_freq_base,
                    scaling_type: self.config.rope_scaling_type,
                    scaling_factor: self.config.rope_scaling_factor,
                }),
            ),
    {
        RopeTable::new(
            self.config.head_dim,
            self.config.max_context_length,
            self.config.rope_freq_base,
            self.config.rope_scaling_type,
            self.config.rope_scaling_factor,
        )
    }

    /// Number of tokens in the vocabulary: the length of the logits.
    pub fn vocab_size(&self) -> (n: usize)
        ensures
            n == self.config.vocab_size,
    {
        self.config.vocab_size
    }

    /// Greatest number of tokens in a context.
    pub fn max_context_length(&self) -> (n: usize)
        ensures
            n == self.config.max_context_length,
    {
        self.config.max_context_length
    }

    /// Size of a hidden state: the length of an embedding.
    pub fn hidden_size(&self) -> (n: usize)
        ensures
            n == self.config.hidden_size,
    {
        self.config.hidden_size
    }

    /// The window of local attention and whether it alternates with global
    /// attention; `None` without a window.
    pub fn swa_config(&self) -> (r: Option<(u32, bool)>)
        ensures
            r == (match self.config.swa_window {
                Some(w) => Some((w, self.config.swa_interleaved)),
                None => None,
            }),
    {
        match self.config.swa_window {
            Some(w) => Some((w, self.config.swa_interleaved)),
            None => None,
        }
    }
}

/// Why block `i` cannot be loaded, if it cannot.
pub open spec fn layer_failure(m: TensorMap, i: nat) -> Option<ArchErrorView> {
    first_of(
        values_failure(m, block_tensor(i, ".attn_norm.weight"@)),
        first_of(
            values_failure(m, block_tensor(i, ".ffn_norm.weight"@)),
            first_of(
                bytes_failure(m, block_tensor(i, ".attn_q.weight"@)),
                first_of(
                    bytes_failure(m, block_tensor(i, ".attn_k.weight"@)),
                    first_of(
                        bytes_failure(m, block_tensor(i, ".attn_v.weight"@)),
                        first_of(
                            bytes_failure(m, block_tensor(i, ".attn_output.weight"@)),
                            first_of(
                                bytes_failure(m, block_tensor(i, ".ffn_gate.weight"@)),
                                first_of(
                                    bytes_failure(m, block_tensor(i, ".ffn_up.weight"@)),
                                    bytes_failure(m, block_tensor(i, ".ffn_down.weight"@)),
                                ),
                            ),
                        ),
                    ),
                ),
            ),
        ),
    )
}

/// The failures of the blocks.
pub open spec fn layer_failures(m: TensorMap) -> spec_fn(nat) -> Option<ArchErrorView> {
    |i: nat| layer_failure(m, i)
}

/// Why a model cannot be loaded, if it cannot. A file without an output
/// projection is no failure.
pub open spec fn gemma_failure(m: TensorMap, layers: nat) -> Option<ArchErrorView> {
    first_of(
        embedding_failure(m, "token_embd.weight"@),
        first_of(
            first_failure(layer_failures(m), layers),
            first_of(
                values_failure(m, "output_norm.weight"@),
                if m.contains_key("output.weight"@) {
                    bytes_failure(m, "output.weight"@)
                } else {
                    None
                },
            ),
        ),
    )
}

/// Whether a layer holds the tensors of block `i`. Even blocks have a window.
pub open spec fn is_layer(l: GemmaLayer, m: TensorMap, eps: u32, i: nat) -> bool {
    &&& is_norm(l.attn_norm, m, block_tensor(i, ".attn_norm.weight"@), eps)
    &&& is_norm(l.ffn_norm, m, block_tensor(i, ".ffn_norm.weight"@), eps)
    &&& is_optional_norm(l.attn_post_norm, m, block_tensor(i, ".attn_post_norm.weight"@), eps)
    &&& is_optional_norm(l.ffn_post_norm, m, block_tensor(i, ".ffn_post_norm.weight"@), eps)
    &&& is_linear(l.attn_q, m, block_tensor(i, ".attn_q.weight"@))
    &&& is_linear(l.attn_k, m, block_tensor(i, ".attn_k.weight"@))
    &&& is_linear(l.attn_v, m, block_tensor(i, ".attn_v.weight"@))
    &&& is_linear(l.attn_output, m, block_tensor(i, ".attn_output.weight"@))
    &&& is_linear(l.ffn_gate, m, block_tensor(i, ".ffn_gate.weight"@))
    &&& is_linear(l.ffn_up, m, block_tensor(i, ".ffn_up.weight"@))
    &&& is_linear(l.ffn_down, m, block_tensor(i, ".ffn_down.weight"@))
    &&& l.use_sliding_window == (i % 2 == 0)
}

/// Whether a model holds the tensors and the metadata of a file.
pub open spec fn is_gemma(
    model: GemmaModel,
    meta: MetadataMap,
    m: TensorMap,
    c: ModelConfigView,
) -> bool {
    &&& model.config@ == c
    &&& model.token_embd@ == values_of(m, "token_embd.weight"@)
    &&& model.layers@.len() == c.num_layers
    &&& forall|i: int|
        0 <= i < model.layers@.len() ==> is_layer(
            #[trigger] model.layers@[i],
            m,
            c.rms_norm_eps,
            i as nat,
        )
    &&& is_norm(model.output_norm, m, "output_norm.weight"@, c.rms_norm_eps)
    &&& match model.output {
        Some(l) => m.contains_key("output.weight"@) && is_linear(l, m, "output.weight"@),
        None => !m.contains_key("output.weight"@),
    }
    &&& model.sliding_window == c.sliding_window
    &&& model.attn_logit_softcap == bits_or(
        meta,
        c.architecture + ".attention.logit_softcap"@,
        F32_ZERO,
    )
    &&& model.final_logit_softcap == bits_or(
        meta,
        c.architecture + ".final_logit_softcap"@,
        F32_ZERO,
    )
}

fn load_layer(model: &GgufModel, i: usize, eps: u32) -> (r: ArchResult<GemmaLayer>)
    ensures
        follows(r, layer_failure(model.tensors@, i as nat)),
        r matches Ok(l) ==> is_layer(l, model.tensors@, eps, i as nat),
{
    let attn_norm = load_rms_norm(model, block_name(i, ".attn_norm.weight").as_str(), eps)?;
    let ffn_norm = load_rms_norm(model, block_name(i, ".ffn_norm.weight").as_str(), eps)?;
    let attn_post_norm = load_optional_norm(
        model,
        block_name(i, ".attn_post_norm.weight").as_str(),
        eps,
    );
    let ffn_post_norm = load_optional_norm(
        model,
        block_name(i, ".ffn_post_norm.weight").as_str(),
        eps,
    );
    let attn_q = load_quant_linear(model, block_name(i, ".attn_q.weight").as_str())?;
    let attn_k = load_quant_linear(model, block_name(i, ".attn_k.weight").as_str())?;
    let attn_v = load_quant_linear(model, block_name(i, ".attn_v.weight").as_str())?;
    let attn_output = load_quant_linear(model, block_name(i, ".attn_output.weight").as_str())?;
    let ffn_gate = load_quant_linear(model, block_name(i, ".ffn_gate.weight").as_str())?;
    let ffn_up = load_quant_linear(model, block_name(i, ".ffn_up.weight").as_str())?;
    let ffn_down = load_quant_linear(model, block_name(i, ".ffn_down.weight").as_str())?;
    Ok(
        GemmaLayer {
            attn_norm,
            attn_post_norm,
            attn_q,
            attn_k,
            attn_v,
            attn_output,
            ffn_norm,
            ffn_post_norm,
            ffn_gate,
            ffn_up,
            ffn_down,
            use_sliding_window: i % 2 == 0,
        },
    )
}

/// Loads a model: every tensor by its name, and the bounds of scores and logits
/// from the metadata.
pub fn load_gemma_from_gguf(model: &GgufModel, config: &ModelConfig) -> (r: ArchResult<GemmaModel>)
    ensures
        follows(r, gemma_failure(model.tensors@, config.num_layers as nat)),
        r matches Ok(g) ==> is_gemma(g, model.metadata@, model.tensors@, config@),
{
    let token_embd = load_embedding(model, "token_embd.weight")?;
    let arch: &str = config.architecture.as_str();
    let attn_logit_softcap: u32 = model.metadata.f32_or(
        joined(arch, ".attention.logit_softcap").as_str(),
        F32_ZERO,
    );
    let final_logit_softcap: u32 = model.metadata.f32_or(
        joined(arch, ".final_logit_softcap").as_str(),
        F32_ZERO,
    );
    let ghost failures = layer_failures(model.tensors@);
    let mut layers: Vec<GemmaLayer> = Vec::new();
    let mut i: usize = 0;
    while i < config.num_layers
        invariant
            i <= config.num_layers,
            failures == layer_failures(model.tensors@),
            embedding_failure(model.tensors@, "token_embd.weight"@) is None,
            first_failure(failures, i as nat) is None,
            layers@.len() == i,
            forall|j: int|
                0 <= j < i ==> is_layer(
                    #[trigger] layers@[j],
                    model.tensors@,
                    config.rms_norm_eps,
                    j as nat,
                ),
        decreases config.num_layers - i,
    {
        match load_layer(model, i, config.rms_norm_eps) {
            Ok(l) => {
                layers.push(l);
            },
            Err(e) => {
                proof {
                    lemma_first_failure(failures, i as nat, config.num_layers as nat);
                }
                return Err(e);
            },
        }
        i = i + 1;
    }
    let output_norm = load_rms_norm(model, "output_norm.weight", config.rms_norm_eps)?;
    let output: Option<QuantLinear> = if model.tensors.contains("output.weight") {
        Some(load_quant_linear(model, "output.weight")?)
    } else {
        None
    };
    Ok(
        GemmaModel::new(
            config.duplicate(),
            token_embd,
            layers,
            output_norm,
            output,
            attn_logit_softcap,
            final_logit_softcap,
        ),
    )
}

/// In a loaded model, of two layers in a row one attends globally, whatever the
/// window.
pub proof fn law_windows_alternate(
    model: GemmaModel,
    meta: MetadataMap,
    m: TensorMap,
    c: ModelConfigView,
    i: int,
)
    requires
        is_gemma(model, meta, m, c),
        0 <= i,
        i + 1 < model.layers@.len(),
    ensures
        model.window(i) is None || model.window(i + 1) is None,
        i % 2 == 0 ==> model.window(i) == c.sliding_window,
        i % 2 == 1 ==> model.window(i) is None,
{
    assert(is_layer(model.layers@[i], m, c.rms_norm_eps, i as nat));
    assert(is_layer(model.layers@[i + 1], m, c.rms_norm_eps, (i + 1) as nat));
}

/// A layer with a window reads the newest positions that the window spans, the
/// token's own among them, and a layer without one reads all positions. What the
/// cache holds at other positions makes no difference.
pub proof fn law_local_layers_read_their_window(
    model: GemmaModel,
    layer: int,
    position: int,
    plan: Seq<CausalReads>,
    a: Seq<u32>,
    b: Seq<u32>,
    h: int,
    p: int,
    d: int,
)
    requires
        layout_of(model.config@).even(),
        0 <= position,
        attends(plan, layout_of(model.config@), position, model.window(layer)),
        forall|i: int|
            #![trigger a[i]]
            window_start_of((position + 1) as nat, model.window(layer)) * layout_of(
                model.config@,
            ).row() <= i < (position + 1) * layout_of(model.config@).row() ==> a[i] == b[i],
        0 <= h < plan.len(),
        0 <= p < plan[h].keys@.len(),
        0 <= d < model.config.head_dim,
    ensures
        plan[h].keys@.len() == match model.window(layer) {
            Some(w) => if w <= position + 1 {
                w as int
            } else {
                position + 1
            },
            None => position + 1,
        },
        a[plan[h].keys@[p] + d] == b[plan[h].keys@[p] + d],
{
    law_only_rows_in_view_are_read(
        plan,
        layout_of(model.config@),
        position,
        model.window(layer),
        a,
        b,
        h,
        p,
        d,
    );
}

/// In a loaded model every weight is that of the tensor that is named after it:
/// `blk.{i}` and the name of the part for layer `i`, and the bare name for the
/// parts that the layers share.
pub proof fn law_tensors_are_where_their_names_say(
    model: GemmaModel,
    meta: MetadataMap,
    m: TensorMap,
    c: ModelConfigView,
    i: int,
)
    requires
        is_gemma(model, meta, m, c),
        0 <= i < model.layers@.len(),
    ensures
        model.layers@[i].attn_norm.weight@
            == m["blk."@ + decimal(i as nat) + ".attn_norm.weight"@].decode()->Ok_0,
        model.layers@[i].attn_norm.eps == c.rms_norm_eps,
        model.layers@[i].ffn_norm.weight@
            == m["blk."@ + decimal(i as nat) + ".ffn_norm.weight"@].decode()->Ok_0,
        model.layers@[i].ffn_norm.eps == c.rms_norm_eps,
        m["blk."@ + decimal(i as nat) + ".attn_q.weight"@].bytes()
            == Some(model.layers@[i].attn_q.weight.data@),
        model.layers@[i].attn_q.weight.shape@
            == m["blk."@ + decimal(i as nat) + ".attn_q.weight"@].dims(),
        model.layers@[i].attn_q.weight.tensor_type
            == m["blk."@ + decimal(i as nat) + ".attn_q.weight"@].kind(),
        model.layers@[i].attn_q.lora is None,
        model.layers@[i].attn_q.bias is None,
        m["blk."@ + decimal(i as nat) + ".attn_k.weight"@].bytes()
            == Some(model.layers@[i].attn_k.weight.data@),
        model.layers@[i].attn_k.weight.shape@
            == m["blk."@ + decimal(i as nat) + ".attn_k.weight"@].dims(),
        model.layers@[i].attn_k.weight.tensor_type
            == m["blk."@ + decimal(i as nat) + ".attn_k.weight"@].kind(),
        model.layers@[i].attn_k.lora is None,
        model.layers@[i].attn_k.bias is None,
        m["blk."@ + decimal(i as nat) + ".attn_v.weight"@].bytes()
            == Some(model.layers@[i].attn_v.weight.data@),
        model.layers@[i].attn_v.weight.shape@
            == m["blk."@ + decimal(i as nat) + ".attn_v.weight"@].dims(),
        model.layers@[i].attn_v.weight.tensor_type
            == m["blk."@ + decimal(i as nat) + ".attn_v.weight"@].kind(),
        model.layers@[i].attn_v.lora is None,
        model.layers@[i].attn_v.bias is None,
        m["blk."@ + decimal(i as nat) + ".attn_output.weight"@].bytes()
            == Some(model.layers@[i].attn_output.weight.data@),
        model.layers@[i].attn_output.weight.shape@
            == m["blk."@ + decimal(i as nat) + ".attn_output.weight"@].dims(),
        model.layers@[i].attn_output.weight.tensor_type
            == m["blk."@ + decimal(i as nat) + ".attn_output.weight"@].kind(),
        model.layers@[i].attn_output.lora is None,
        model.layers@[i].attn_output.bias is None,
        m["blk."@ + decimal(i as nat) + ".ffn_gate.weight"@].bytes()
            == Some(model.layers@[i].ffn_gate.weight.data@),
        model.layers@[i].ffn_gate.weight.shape@
            == m["blk."@ + decimal(i as nat) + ".ffn_gate.weight"@].dims(),
        model.layers@[i].ffn_gate.weight.tensor_type
            == m["blk."@ + decimal(i as nat) + ".ffn_gate.weight"@].kind(),
        model.layers@[i].ffn_gate.lora is None,
        model.layers@[i].ffn_gate.bias is None,
        m["blk."@ + decimal(i as nat) + ".ffn_up.weight"@].bytes()
            == Some(model.layers@[i].ffn_up.weight.data@),
        model.layers@[i].ffn_up.weight.shape@
            == m["blk."@ + decimal(i as nat) + ".ffn_up.weight"@].dims(),
        model.layers@[i].ffn_up.weight.tensor_type
            == m["blk."@ + decimal(i as nat) + ".ffn_up.weight"@].kind(),
        model.layers@[i].ffn_up.lora is None,
        model.layers@[i].ffn_up.bias is None,
        m["blk."@ + decimal(i as nat) + ".ffn_down.weight"@].bytes()
            == Some(model.layers@[i].ffn_down.weight.data@),
        model.layers@[i].ffn_down.weight.shape@
            == m["blk."@ + decimal(i as nat) + ".ffn_down.weight"@].dims(),
        model.layers@[i].ffn_down.weight.tensor_type
            == m["blk."@ + decimal(i as nat) + ".ffn_down.weight"@].kind(),
        model.layers@[i].ffn_down.lora is None,
        model.layers@[i].ffn_down.bias is None,
        model.layers@[i].attn_post_norm is Some
            <==> m.contains_key("blk."@ + decimal(i as nat) + ".attn_post_norm.weight"@)
            && m["blk."@ + decimal(i as nat) + ".attn_post_norm.weight"@].bytes() is Some
            && m["blk."@ + decimal(i as nat) + ".attn_post_norm.weight"@].decode() is Ok,
        model.layers@[i].attn_post_norm matches Some(n)
            ==> n.weight@
            == m["blk."@ + decimal(i as nat) + ".attn_post_norm.weight"@].decode()->Ok_0
            && n.eps == c.rms_norm_eps,
        model.layers@[i].ffn_post_norm is Some
            <==> m.contains_key("blk."@ + decimal(i as nat) + ".ffn_post_norm.weight"@)
            && m["blk."@ + decimal(i as nat) + ".ffn_post_norm.weight"@].bytes() is Some
            && m["blk."@ + decimal(i as nat) + ".ffn_post_norm.weight"@].decode() is Ok,
        model.layers@[i].ffn_post_norm matches Some(n)
            ==> n.weight@
            == m["blk."@ + decimal(i as nat) + ".ffn_post_norm.weight"@].decode()->Ok_0
            && n.eps == c.rms_norm_eps,
        model.layers@.len() == c.num_layers,
        model.token_embd@ == m["token_embd.weight"@].decode()->Ok_0,
        model.output_norm.weight@ == m["output_norm.weight"@].decode()->Ok_0,
        model.output_norm.eps == c.rms_norm_eps,
        model.output is Some <==> m.contains_key("output.weight"@),
        model.output matches Some(l) ==> m["output.weight"@].bytes() == Some(l.weight.data@),
        model.sliding_window == c.sliding_window,
{
    assert(is_layer(model.layers@[i], m, c.rms_norm_eps, i as nat));
}

/// A model loads exactly where every tensor that it needs is there and can be had:
/// those that the layers share, and those of each of its layers. A file
/// without an output projection is no failure.
#[verifier::rlimit(40)]
pub proof fn law_model_loads_where_its_tensors_are_there(m: TensorMap, layers: nat)
    ensures
        gemma_failure(m, layers) is None <==> {
            &&& embedding_failure(m, "token_embd.weight"@) is None
            &&& forall|i: nat|
                #![trigger decimal(i)]
                i < layers ==> {
                    &&& values_failure(m, "blk."@ + decimal(i) + ".attn_norm.weight"@) is None
                    &&& values_failure(m, "blk."@ + decimal(i) + ".ffn_norm.weight"@) is None
                    &&& bytes_failure(m, "blk."@ + decimal(i) + ".attn_q.weight"@) is None
                    &&& bytes_failure(m, "blk."@ + decimal(i) + ".attn_k.weight"@) is None
                    &&& bytes_failure(m, "blk."@ + decimal(i) + ".attn_v.weight"@) is None
                    &&& bytes_failure(m, "blk."@ + decimal(i) + ".attn_output.weight"@) is None
                    &&& bytes_failure(m, "blk."@ + decimal(i) + ".ffn_gate.weight"@) is None
                    &&& bytes_failure(m, "blk."@ + decimal(i) + ".ffn_up.weight"@) is None
                    &&& bytes_failure(m, "blk."@ + decimal(i) + ".ffn_down.weight"@) is None
                }
            &&& values_failure(m, "output_norm.weight"@) is None
            &&& m.contains_key("output.weight"@) ==> bytes_failure(m, "output.weight"@) is None
        },
{
    let f = layer_failures(m);
    let n = layers as nat;
    law_first_failing_part_is_reported(f, n);
    assert forall|i: nat|
        #![trigger decimal(i)]
        i < n && first_failure(f, n) is None implies {
        &&& values_failure(m, "blk."@ + decimal(i) + ".attn_norm.weight"@) is None
        &&& values_failure(m, "blk."@ + decimal(i) + ".ffn_norm.weight"@) is None
        &&& bytes_failure(m, "blk."@ + decimal(i) + ".attn_q.weight"@) is None
        &&& bytes_failure(m, "blk."@ + decimal(i) + ".attn_k.weight"@) is None
        &&& bytes_failure(m, "blk."@ + decimal(i) + ".attn_v.weight"@) is None
        &&& bytes_failure(m, "blk."@ + decimal(i) + ".attn_output.weight"@) is None
        &&& bytes_failure(m, "blk."@ + decimal(i) + ".ffn_gate.weight"@) is None
        &&& bytes_failure(m, "blk."@ + decimal(i) + ".ffn_up.weight"@) is None
        &&& bytes_failure(m, "blk."@ + decimal(i) + ".ffn_down.weight"@) is None
    } by {
        assert(f(i) is None);
        assert(layer_failure(m, i) is None);
    }
    if forall|i: nat|
        #![trigger decimal(i)]
        i < n ==> {
            &&& values_failure(m, "blk."@ + decimal(i) + ".attn_norm.weight"@) is None
            &&& values_failure(m, "blk."@ + decimal(i) + ".ffn_norm.weight"@) is None
            &&& bytes_failure(m, "blk."@ + decimal(i) + ".attn_q.weight"@) is None
            &&& bytes_failure(m, "blk."@ + decimal(i) + ".attn_k.weight"@) is None
            &&& bytes_failure(m, "blk."@ + decimal(i) + ".attn_v.weight"@) is None
            &&& bytes_failure(m, "blk."@ + decimal(i) + ".attn_output.weight"@) is None
            &&& bytes_failure(m, "blk."@ + decimal(i) + ".ffn_gate.weight"@) is None
            &&& bytes_failure(m, "blk."@ + decimal(i) + ".ffn_up.weight"@) is None
            &&& bytes_failure(m, "blk."@ + decimal(i) + ".ffn_down.weight"@) is None
        } {
        assert forall|i: nat| i < n implies (#[trigger] f(i)) is None by {
            let d = decimal(i);
            assert(layer_failure(m, i) is None);
        }
    }
}

/// Of the tensors of a block the first that cannot be had, in the order of loading,
/// is the one that is reported.
pub proof fn law_first_missing_part_of_a_block_is_reported(m: TensorMap, layers: nat, i: nat)
    ensures
        values_failure(m, "blk."@ + decimal(i) + ".attn_norm.weight"@) is Some
            ==> layer_failure(m, i)
            == values_failure(m, "blk."@ + decimal(i) + ".attn_norm.weight"@),
        values_failure(m, "blk."@ + decimal(i) + ".attn_norm.weight"@) is None
            && values_failure(m, "blk."@ + decimal(i) + ".ffn_norm.weight"@) is Some
            ==> layer_failure(m, i)
            == values_failure(m, "blk."@ + decimal(i) + ".ffn_norm.weight"@),
        values_failure(m, "blk."@ + decimal(i) + ".attn_norm.weight"@) is None
            && values_failure(m, "blk."@ + decimal(i) + ".ffn_norm.weight"@) is None
            && bytes_failure(m, "blk."@ + decimal(i) + ".attn_q.weight"@) is Some
            ==> layer_failure(m, i) == bytes_failure(m, "blk."@ + decimal(i) + ".attn_q.weight"@),
        values_failure(m, "blk."@ + decimal(i) + ".attn_norm.weight"@) is None
            && values_failure(m, "blk."@ + decimal(i) + ".ffn_norm.weight"@) is None
            && bytes_failure(m, "blk."@ + decimal(i) + ".attn_q.weight"@) is None
            && bytes_failure(m, "blk."@ + decimal(i) + ".attn_k.weight"@) is Some
            ==> layer_failure(m, i) == bytes_failure(m, "blk."@ + decimal(i) + ".attn_k.weight"@),
        values_failure(m, "blk."@ + decimal(i) + ".attn_norm.weight"@) is None
            && values_failure(m, "blk."@ + decimal(i) + ".ffn_norm.weight"@) is None
            && bytes_failure(m, "blk."@ + decimal(i) + ".attn_q.weight"@) is None
            && bytes_failure(m, "blk."@ + decimal(i) + ".attn_k.weight"@) is None
            && bytes_failure(m, "blk."@ + decimal(i) + ".attn_v.weight"@) is Some
            ==> layer_failure(m, i) == bytes_failure(m, "blk."@ + decimal(i) + ".attn_v.weight"@),
        values_failure(m, "blk."@ + decimal(i) + ".attn_norm.weight"@) is None
            && values_failure(m, "blk."@ + decimal(i) + ".ffn_norm.weight"@) is None
            && bytes_failure(m, "blk."@ + decimal(i) + ".attn_q.weight"@) is None
            && bytes_failure(m, "blk."@ + decimal(i) + ".attn_k.weight"@) is None
            && bytes_failure(m, "blk."@ + decimal(i) + ".attn_v.weight"@) is None
            && bytes_failure(m, "blk."@ + decimal(i) + ".attn_output.weight"@) is Some
            ==> layer_failure(m, i)
            == bytes_failure(m, "blk."@ + decimal(i) + ".attn_output.weight"@),
        values_failure(m, "blk."@ + decimal(i) + ".attn_norm.weight"@) is None
            && values_failure(m, "blk."@ + decimal(i) + ".ffn_norm.weight"@) is None
            && bytes_failure(m, "blk."@ + decimal(i) + ".attn_q.weight"@) is None
            && bytes_failure(m, "blk."@ + decimal(i) + ".attn_k.weight"@) is None
            && bytes_failure(m, "blk."@ + decimal(i) + ".attn_v.weight"@) is None
            && bytes_failure(m, "blk."@ + decimal(i) + ".attn_output.weight"@) is None
            && bytes_failure(m, "blk."@ + decimal(i) + ".ffn_gate.weight"@) is Some
            ==> layer_failure(m, i) == bytes_failure(m, "blk."@ + decimal(i) + ".ffn_gate.weight"@),
        values_failure(m, "blk."@ + decimal(i) + ".attn_norm.weight"@) is None
            && values_failure(m, "blk."@ + decimal(i) + ".ffn_norm.weight"@) is None
            && bytes_failure(m, "blk."@ + decimal(i) + ".attn_q.weight"@) is None
            && bytes_failure(m, "blk."@ + decimal(i) + ".attn_k.weight"@) is None
            && bytes_failure(m, "blk."@ + decimal(i) + ".attn_v.weight"@) is None
            && bytes_failure(m, "blk."@ + decimal(i) + ".attn_output.weight"@) is None
            && bytes_failure(m, "blk."@ + decimal(i) + ".ffn_gate.weight"@) is None
            && bytes_failure(m, "blk."@ + decimal(i) + ".ffn_up.weight"@) is Some
            ==> layer_failure(m, i) == bytes_failure(m, "blk."@ + decimal(i) + ".ffn_up.weight"@),
        values_failure(m, "blk."@ + decimal(i) + ".attn_norm.weight"@) is None
            && values_failure(m, "blk."@ + decimal(i) + ".ffn_norm.weight"@) is None
            && bytes_failure(m, "blk."@ + decimal(i) + ".attn_q.weight"@) is None
            && bytes_failure(m, "blk."@ + decimal(i) + ".attn_k.weight"@) is None
            && bytes_failure(m, "blk."@ + decimal(i) + ".attn_v.weight"@) is None
            && bytes_failure(m, "blk."@ + decimal(i) + ".attn_output.weight"@) is None
            && bytes_failure(m, "blk."@ + decimal(i) + ".ffn_gate.weight"@) is None
            && bytes_failure(m, "blk."@ + decimal(i) + ".ffn_up.weight"@) is None
            && bytes_failure(m, "blk."@ + decimal(i) + ".ffn_down.weight"@) is Some
            ==> layer_failure(m, i) == bytes_failure(m, "blk."@ + decimal(i) + ".ffn_down.weight"@),
{
}

/// What is reported of a model is the first failure in the order of loading: the
/// embedding table, then one block after another, then what follows the blocks.
pub proof fn law_blocks_are_loaded_in_order(m: TensorMap, layers: nat, k: nat)
    ensures
        embedding_failure(m, "token_embd.weight"@) is Some
            ==> gemma_failure(m, layers) == embedding_failure(m, "token_embd.weight"@),
        embedding_failure(m, "token_embd.weight"@) is None && k < layers
            && layer_failure(m, k) is Some && (forall|j: nat|
            #![trigger decimal(j)]
            j < k ==> layer_failure(m, j) is None)
                ==> gemma_failure(m, layers) == layer_failure(m, k),
{
    let f = layer_failures(m);
    law_first_failing_part_is_reported(f, layers as nat);
    if k < layers && layer_failure(m, k) is Some && (forall|j: nat|
        #![trigger decimal(j)]
        j < k ==> layer_failure(m, j) is None) {
        assert(f(k) is Some);
        assert forall|j: nat| j < k implies (#[trigger] f(j)) is None by {
            let d = decimal(j);
        }
    }
}

/// The bounds of attention scores and of logits have keys of their own, and there is
/// no bound where the metadata gives none.
pub proof fn law_bounds_have_their_keys(
    model: GemmaModel,
    meta: MetadataMap,
    m: TensorMap,
    c: ModelConfigView,
)
    requires
        is_gemma(model, meta, m, c),
    ensures
        meta_f32(meta, c.architecture + ".attention.logit_softcap"@) matches Some(b)
            ==> model.attn_logit_softcap == b,
        meta_f32(meta, c.architecture + ".attention.logit_softcap"@) is None
            ==> model.attn_logit_softcap == 0,
        meta_f32(meta, c.architecture + ".final_logit_softcap"@) matches Some(b)
            ==> model.final_logit_softcap == b,
        meta_f32(meta, c.architecture + ".final_logit_softcap"@) is None
            ==> model.final_logit_softcap == 0,
{
}

/// A layer attends within the model's window exactly where the layer has one.
pub proof fn law_layers_with_a_window_use_it(model: GemmaModel, layer: int)
    ensures
        model.layers@[layer].use_sliding_window ==> model.window(layer) == model.sliding_window,
        !model.layers@[layer].use_sliding_window ==> model.window(layer) is None,
{
}

} // verus!
