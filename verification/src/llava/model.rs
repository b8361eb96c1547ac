//! Loading a model, and images.

use crate::bits::F32_ZERO;
use crate::common::embedding::all_have_rows;
use crate::common::linear::LoadedLora;
use crate::common::load::{
    load_dequant_tensor, load_optional, optional_values, values_failure, values_of,
};
use crate::common::pass::{Order, Pass};
use crate::common::sizes::filled;
use crate::config::{ModelConfig, ModelConfigView};
use crate::error::{first_of, follows, ArchErrorView, ArchResult};
use crate::gguf::{GgufModel, TensorMap};
use crate::llama::{is_llama, llama_failure, load_llama_from_gguf, model_patched, LlamaModel};
use crate::llava::clip::{patch_of, patches_per_side, ClipEncoder, ClipEncoderLayer, ClipInput};
use crate::llava::projector::MmProjector;
use crate::text::{block_name, block_tensor, decimal, joined};
use vstd::prelude::*;

verus! {

/// A vision encoder, a projector and a decoder.
#[derive(Debug)]
pub struct LlavaModel {
    /// The vision encoder.
    pub vision_encoder: ClipEncoder,
    /// The projector.
    pub mm_projector: MmProjector,
    /// The decoder.
    pub language_model: LlamaModel,
    /// Size of a hidden state of the decoder.
    pub llm_hidden_size: usize,
    /// Size of a feature of the vision encoder.
    pub clip_hidden_size: usize,
}

/// Number of layers of the vision encoder.
pub const CLIP_NUM_LAYERS: usize = 23;

/// The tensor of layer `i` of the vision encoder with a suffix.
pub open spec fn vision_tensor(i: nat, suffix: Seq<char>) -> Seq<char> {
    "v."@ + block_tensor(i, suffix)
}

/// The size of a feature: the width of the projector's first layer, which has
/// as many rows as the decoder's hidden state has elements.
pub open spec fn clip_size(weights: nat, hidden: nat) -> nat {
    if hidden > 0 && weights > 0 {
        weights / hidden
    } else {
        1024
    }
}

/// Why the projector cannot be loaded, if it cannot. The biases and all tensors
/// of the vision encoder are optional.
pub open spec fn projector_failure(m: TensorMap) -> Option<ArchErrorView> {
    first_of(values_failure(m, "mm.0.weight"@), values_failure(m, "mm.2.weight"@))
}

/// Why a model cannot be loaded, if it cannot.
pub open spec fn llava_failure(m: TensorMap, c: ModelConfigView) -> Option<ArchErrorView> {
    first_of(llama_failure(m, c), projector_failure(m))
}

/// The bias of the projector's second layer: zeros where the file has none.
pub open spec fn second_bias(m: TensorMap, hidden: nat) -> Seq<u32> {
    if values_failure(m, "mm.2.bias"@) is None {
        values_of(m, "mm.2.bias"@)
    } else {
        Seq::new(hidden, |i: int| F32_ZERO)
    }
}

/// Whether a projector holds the tensors of a file.
pub open spec fn is_projector(p: MmProjector, m: TensorMap, hidden: usize) -> bool {
    &&& p.fc1_weight@ == values_of(m, "mm.0.weight"@)
    &&& p.fc1_bias@ == optional_values(m, "mm.0.bias"@)
    &&& p.fc2_weight@ == values_of(m, "mm.2.weight"@)
    &&& p.fc2_bias@ == second_bias(m, hidden as nat)
    &&& p.clip_hidden_size == clip_size(values_of(m, "mm.0.weight"@).len(), hidden as nat)
    &&& p.mm_hidden_size == hidden
    &&& p.llm_hidden_size == hidden
}

/// Whether a layer of the vision encoder holds the tensors of layer `i`.
pub open spec fn is_vision_layer(l: ClipEncoderLayer, m: TensorMap, i: nat) -> bool {
    &&& l.ln1_weight@ == optional_values(m, vision_tensor(i, ".ln1.weight"@))
    &&& l.ln1_bias@ == optional_values(m, vision_tensor(i, ".ln1.bias"@))
    &&& l.ln2_weight@ == optional_values(m, vision_tensor(i, ".ln2.weight"@))
    &&& l.ln2_bias@ == optional_values(m, vision_tensor(i, ".ln2.bias"@))
    &&& l.q_weight@ == optional_values(m, vision_tensor(i, ".attn_q.weight"@))
    &&& l.k_weight@ == optional_values(m, vision_tensor(i, ".attn_k.weight"@))
    &&& l.v_weight@ == optional_values(m, vision_tensor(i, ".attn_v.weight"@))
    &&& l.out_weight@ == optional_values(m, vision_tensor(i, ".attn_out.weight"@))
    &&& l.q_bias@ == optional_values(m, vision_tensor(i, ".attn_q.bias"@))
    &&& l.k_bias@ == optional_values(m, vision_tensor(i, ".attn_k.bias"@))
    &&& l.v_bias@ == optional_values(m, vision_tensor(i, ".attn_v.bias"@))
    &&& l.out_bias@ == optional_values(m, vision_tensor(i, ".attn_out.bias"@))
    &&& l.fc1_weight@ == optional_values(m, vision_tensor(i, ".ffn_up.weight"@))
    &&& l.fc1_bias@ == optional_values(m, vision_tensor(i, ".ffn_up.bias"@))
    &&& l.fc2_weight@ == optional_values(m, vision_tensor(i, ".ffn_down.weight"@))
    &&& l.fc2_bias@ == optional_values(m, vision_tensor(i, ".ffn_down.bias"@))
}

/// Whether a vision encoder holds the tensors of a file, for images of 336
/// pixels a side, cut into patches of 14.
pub open spec fn is_vision(e: ClipEncoder, m: TensorMap, clip_hidden: usize) -> bool {
    &&& e.patch_embd_weight@ == optional_values(m, "v.patch_embd.weight"@)
    &&& e.patch_embd_bias@ == optional_values(m, "v.patch_embd.bias"@)
    &&& e.position_embd@ == optional_values(m, "v.position_embd.weight"@)
    &&& e.pre_ln_weight@ == optional_values(m, "v.pre_ln.weight"@)
    &&& e.pre_ln_bias@ == optional_values(m, "v.pre_ln.bias"@)
    &&& e.post_ln_weight@ == optional_values(m, "v.post_ln.weight"@)
    &&& e.post_ln_bias@ == optional_values(m, "v.post_ln.bias"@)
    &&& e.layers@.len() == CLIP_NUM_LAYERS
    &&& forall|i: int|
        0 <= i < e.layers@.len() ==> is_vision_layer(#[trigger] e.layers@[i], m, i as nat)
    &&& e.hidden_size == clip_hidden
    &&& e.num_heads == 16
    &&& e.patch_size == 14
    &&& e.image_size == 336
}

/// Whether a model holds the tensors of a file.
pub open spec fn is_llava(l: LlavaModel, m: TensorMap, c: ModelConfigView) -> bool {
    &&& is_llama(l.language_model, m, c)
    &&& is_projector(l.mm_projector, m, c.hidden_size)
    &&& is_vision(l.vision_encoder, m, l.mm_projector.clip_hidden_size)
    &&& l.llm_hidden_size == c.hidden_size
    &&& l.clip_hidden_size == l.mm_projector.clip_hidden_size
}

fn load_vision_part(model: &GgufModel, i: usize, suffix: &str) -> (v: Vec<u32>)
    ensures
        v@ == optional_values(model.tensors@, vision_tensor(i as nat, suffix@)),
{
    let name = block_name(i, suffix);
    load_optional(model, joined("v.", name.as_str()).as_str())
}

fn load_vision_layer(model: &GgufModel, i: usize) -> (l: ClipEncoderLayer)
    ensures
        is_vision_layer(l, model.tensors@, i as nat),
{
    ClipEncoderLayer {
        ln1_weight: load_vision_part(model, i, ".ln1.weight"),
        ln1_bias: load_vision_part(model, i, ".ln1.bias"),
        ln2_weight: load_vision_part(model, i, ".ln2.weight"),
        ln2_bias: load_vision_part(model, i, ".ln2.bias"),
        q_weight: load_vision_part(model, i, ".attn_q.weight"),
        k_weight: load_vision_part(model, i, ".attn_k.weight"),
        v_weight: load_vision_part(model, i, ".attn_v.weight"),
        out_weight: load_vision_part(model, i, ".attn_out.weight"),
        q_bias: load_vision_part(model, i, ".attn_q.bias"),
        k_bias: load_vision_part(model, i, ".attn_k.bias"),
        v_bias: load_vision_part(model, i, ".attn_v.bias"),
        out_bias: load_vision_part(model, i, ".attn_out.bias"),
        fc1_weight: load_vision_part(model, i, ".ffn_up.weight"),
        fc1_bias: load_vision_part(model, i, ".ffn_up.bias"),
        fc2_weight: load_vision_part(model, i, ".ffn_down.weight"),
        fc2_bias: load_vision_part(model, i, ".ffn_down.bias"),
    }
}

/// Loads the vision encoder.
pub fn load_vision(model: &GgufModel, clip_hidden_size: usize) -> (e: ClipEncoder)
    ensures
        is_vision(e, model.tensors@, clip_hidden_size),
{
    let mut layers: Vec<ClipEncoderLayer> = Vec::new();
    let mut i: usize = 0;
    while i < CLIP_NUM_LAYERS
        invariant
            i <= CLIP_NUM_LAYERS,
            layers@.len() == i,
            forall|j: int|
                0 <= j < i ==> is_vision_layer(#[trigger] layers@[j], model.tensors@, j as nat),
        decreases CLIP_NUM_LAYERS - i,
    {
        layers.push(load_vision_layer(model, i));
        i = i + 1;
    }
    ClipEncoder {
        patch_embd_weight: load_optional(model, "v.patch_embd.weight"),
        patch_embd_bias: load_optional(model, "v.patch_embd.bias"),
        position_embd: load_optional(model, "v.position_embd.weight"),
        pre_ln_weight: load_optional(model, "v.pre_ln.weight"),
        pre_ln_bias: load_optional(model, "v.pre_ln.bias"),
        post_ln_weight: load_optional(model, "v.post_ln.weight"),
        post_ln_bias: load_optional(model, "v.post_ln.bias"),
        layers,
        hidden_size: clip_hidden_size,
        num_heads: 16,
        patch_size: 14,
        image_size: 336,
    }
}

/// Loads the projector.
pub fn load_projector(model: &GgufModel, hidden_size: usize) -> (r: ArchResult<MmProjector>)
    ensures
        follows(r, projector_failure(model.tensors@)),
        r matches Ok(p) ==> is_projector(p, model.tensors@, hidden_size),
{
    let fc1_weight = load_dequant_tensor(model, "mm.0.weight")?;
    let fc1_bias = load_optional(model, "mm.0.bias");
    let fc2_weight = load_dequant_tensor(model, "mm.2.weight")?;
    let fc2_bias = match load_dequant_tensor(model, "mm.2.bias") {
        Ok(v) => v,
        Err(_) => filled(F32_ZERO, hidden_size),
    };
    let clip_hidden_size: usize = if hidden_size > 0 && !fc1_weight.is_empty() {
        fc1_weight.len() / hidden_size
    } else {
        1024
    };
    Ok(
        MmProjector {
            fc1_weight,
            fc1_bias,
            fc2_weight,
            fc2_bias,
            clip_hidden_size,
            mm_hidden_size: hidden_size,
            llm_hidden_size: hidden_size,
        },
    )
}

impl LlavaModel {
    /// Loads a model: the decoder, the projector and the vision encoder.
    pub fn load(gguf: &GgufModel, config: &ModelConfig) -> (r: ArchResult<Self>)
        ensures
            follows(r, llava_failure(gguf.tensors@, config@)),
            r matches Ok(l) ==> is_llava(l, gguf.tensors@, config@),
    {
        let language_model = load_llama_from_gguf(gguf, config)?;
        let mm_projector = load_projector(gguf, config.hidden_size)?;
        let clip_hidden_size: usize = mm_projector.clip_hidden_size;
        let vision_encoder = load_vision(gguf, clip_hidden_size);
        Ok(
            LlavaModel {
                vision_encoder,
                mm_projector,
                language_model,
                llm_hidden_size: config.hidden_size,
                clip_hidden_size,
            },
        )
    }

    /// Why an image of `pixels` elements is refused, if it is: by the vision
    /// encoder, or else by the projector for the features that the encoder
    /// gives.
    pub open spec fn image_failure(&self, pixels: nat) -> Option<ArchErrorView> {
        first_of(
            self.vision_encoder.encode_failure(pixels),
            self.mm_projector.project_failure(
                self.vision_encoder.patch_count() * self.vision_encoder.hidden_size as nat,
            ),
        )
    }

    /// Checks an image for both the vision encoder and the projector, and cuts
    /// it into patches.
    pub fn encode_image(&self, pixels: &Vec<u32>) -> (r: ArchResult<ClipInput>)
        requires
            3 * self.vision_encoder.image_size * self.vision_encoder.image_size <= usize::MAX,
            self.vision_encoder.patch_count() <= usize::MAX,
            self.vision_encoder.patch_count() * self.vision_encoder.hidden_size as nat
                <= usize::MAX,
        ensures
            follows(r, self.image_failure(pixels@.len())),
            r matches Ok(x) ==> {
                &&& x.patches@.len() == self.vision_encoder.patch_count()
                &&& forall|k: int|
                    0 <= k < x.patches@.len() ==> (#[trigger] x.patches@[k])@ == patch_of(
                        pixels@,
                        self.vision_encoder.image_size as nat,
                        self.vision_encoder.patch_size as nat,
                        k,
                    )
                &&& x.positions@ == Seq::new(
                    self.vision_encoder.patch_count() + 1,
                    |p: int| self.vision_encoder.position_start(p),
                )
            },
    {
        let input = self.vision_encoder.encode(pixels)?;
        let features: usize = self.vision_encoder.num_patches() * self.vision_encoder.hidden_size;
        self.mm_projector.check(features)?;
        Ok(input)
    }

    /// Begins a pass of the language model over text.
    pub fn forward(&self, tokens: &Vec<u32>, cached: usize) -> (r: Option<Pass>)
        requires
            cached + tokens@.len() <= usize::MAX,
        ensures
            r is Some <==> all_have_rows(
                self.language_model.token_embd@,
                self.language_model.config.hidden_size as nat,
                tokens@,
            ),
            r matches Some(p) ==> p.begins(
                Order::TokenByToken,
                self.language_model.layers@.len(),
                cached as nat,
                self.language_model.token_embd@,
                self.language_model.config.hidden_size as nat,
                tokens@,
            ),
    {
        self.language_model.forward(tokens, cached)
    }

    /// Begins a pass of the language model over text that ends in the normed
    /// hidden state of the last token.
    pub fn embed(&self, tokens: &Vec<u32>, cached: usize) -> (r: Option<Pass>)
        requires
            cached + tokens@.len() <= usize::MAX,
        ensures
            r is Some <==> all_have_rows(
                self.language_model.token_embd@,
                self.language_model.config.hidden_size as nat,
                tokens@,
            ),
            r matches Some(p) ==> p.begins(
                Order::TokenByToken,
                self.language_model.layers@.len(),
                cached as nat,
                self.language_model.token_embd@,
                self.language_model.config.hidden_size as nat,
                tokens@,
            ),
    {
        self.language_model.embed(tokens, cached)
    }

    /// Number of tokens in the vocabulary.
    pub fn vocab_size(&self) -> (n: usize)
        ensures
            n == self.language_model.config.vocab_size,
    {
        self.language_model.vocab_size()
    }

    /// Greatest number of tokens in a context.
    pub fn max_context_length(&self) -> (n: usize)
        ensures
            n == self.language_model.config.max_context_length,
    {
        self.language_model.max_context_length()
    }

    /// Size of a hidden state of the decoder.
    pub fn hidden_size(&self) -> (n: usize)
        ensures
            n == self.language_model.config.hidden_size,
    {
        self.language_model.hidden_size()
    }

    /// Attaches the adapters of a file to the decoder.
    pub fn apply_lora(&mut self, lora: &LoadedLora) -> (r: ArchResult<()>)
        ensures
            r is Ok,
            model_patched(old(self).language_model, final(self).language_model, lora@),
            final(self).vision_encoder == old(self).vision_encoder,
            final(self).mm_projector == old(self).mm_projector,
            final(self).llm_hidden_size == old(self).llm_hidden_size,
            final(self).clip_hidden_size == old(self).clip_hidden_size,
    {
        self.language_model.apply_lora(lora)
    }
}

/// Loads a model.
pub fn load_llava_from_gguf(gguf: &GgufModel, config: &ModelConfig) -> (r: ArchResult<LlavaModel>)
    ensures
        follows(r, llava_failure(gguf.tensors@, config@)),
        r matches Ok(l) ==> is_llava(l, gguf.tensors@, config@),
{
    LlavaModel::load(gguf, config)
}

/// The vision encoder of a loaded model takes images of 336 pixels a side and
/// gives 576 features.
pub proof fn law_loaded_encoder_has_576_patches(e: ClipEncoder, m: TensorMap, clip_hidden: usize)
    requires
        is_vision(e, m, clip_hidden),
    ensures
        e.patch_count() == 576,
        clip_hidden >= 16 ==> e.encode_failure((3 * 336 * 336) as nat) is None,
{
    assert(patches_per_side(336, 14) == 24);
    assert(24nat * 24nat == 576) by (nonlinear_arith);
}

/// Every weight of the vision encoder is that of the tensor that is named after
/// it, under `v.blk.{i}` for layer `i`, and empty where that tensor cannot be had.
#[verifier::rlimit(60)]
pub proof fn law_vision_tensors_are_where_their_names_say(
    e: ClipEncoder,
    m: TensorMap,
    clip_hidden: usize,
    i: int,
)
    requires
        is_vision(e, m, clip_hidden),
        0 <= i < 23,
    ensures
        m.contains_key("v.blk."@ + decimal(i as nat) + ".ln1.weight"@)
            && m["v.blk."@ + decimal(i as nat) + ".ln1.weight"@].bytes() is Some
            && m["v.blk."@ + decimal(i as nat) + ".ln1.weight"@].decode() is Ok
            ==> e.layers@[i].ln1_weight@
            == m["v.blk."@ + decimal(i as nat) + ".ln1.weight"@].decode()->Ok_0,
        !(m.contains_key("v.blk."@ + decimal(i as nat) + ".ln1.weight"@)
            && m["v.blk."@ + decimal(i as nat) + ".ln1.weight"@].bytes() is Some
            && m["v.blk."@ + decimal(i as nat) + ".ln1.weight"@].decode() is Ok)
            ==> e.layers@[i].ln1_weight@.len() == 0,
        m.contains_key("v.blk."@ + decimal(i as nat) + ".ln1.bias"@)
            && m["v.blk."@ + decimal(i as nat) + ".ln1.bias"@].bytes() is Some
            && m["v.blk."@ + decimal(i as nat) + ".ln1.bias"@].decode() is Ok
            ==> e.layers@[i].ln1_bias@
            == m["v.blk."@ + decimal(i as nat) + ".ln1.bias"@].decode()->Ok_0,
        !(m.contains_key("v.blk."@ + decimal(i as nat) + ".ln1.bias"@)
            && m["v.blk."@ + decimal(i as nat) + ".ln1.bias"@].bytes() is Some
            && m["v.blk."@ + decimal(i as nat) + ".ln1.bias"@].decode() is Ok)
            ==> e.layers@[i].ln1_bias@.len() == 0,
        m.contains_key("v.blk."@ + decimal(i as nat) + ".ln2.weight"@)
            && m["v.blk."@ + decimal(i as nat) + ".ln2.weight"@].bytes() is Some
            && m["v.blk."@ + decimal(i as nat) + ".ln2.weight"@].decode() is Ok
            ==> e.layers@[i].ln2_weight@
            == m["v.blk."@ + decimal(i as nat) + ".ln2.weight"@].decode()->Ok_0,
        !(m.contains_key("v.blk."@ + decimal(i as nat) + ".ln2.weight"@)
            && m["v.blk."@ + decimal(i as nat) + ".ln2.weight"@].bytes() is Some
            && m["v.blk."@ + decimal(i as nat) + ".ln2.weight"@].decode() is Ok)
            ==> e.layers@[i].ln2_weight@.len() == 0,
        m.contains_key("v.blk."@ + decimal(i as nat) + ".ln2.bias"@)
            && m["v.blk."@ + decimal(i as nat) + ".ln2.bias"@].bytes() is Some
            && m["v.blk."@ + decimal(i as nat) + ".ln2.bias"@].decode() is Ok
            ==> e.layers@[i].ln2_bias@
            == m["v.blk."@ + decimal(i as nat) + ".ln2.bias"@].decode()->Ok_0,
        !(m.contains_key("v.blk."@ + decimal(i as nat) + ".ln2.bias"@)
            && m["v.blk."@ + decimal(i as nat) + ".ln2.bias"@].bytes() is Some
            && m["v.blk."@ + decimal(i as nat) + ".ln2.bias"@].decode() is Ok)
            ==> e.layers@[i].ln2_bias@.len() == 0,
        m.contains_key("v.blk."@ + decimal(i as nat) + ".attn_q.weight"@)
            && m["v.blk."@ + decimal(i as nat) + ".attn_q.weight"@].bytes() is Some
            && m["v.blk."@ + decimal(i as nat) + ".attn_q.weight"@].decode() is Ok
            ==> e.layers@[i].q_weight@
            == m["v.blk."@ + decimal(i as nat) + ".attn_q.weight"@].decode()->Ok_0,
        !(m.contains_key("v.blk."@ + decimal(i as nat) + ".attn_q.weight"@)
            && m["v.blk."@ + decimal(i as nat) + ".attn_q.weight"@].bytes() is Some
            && m["v.blk."@ + decimal(i as nat) + ".attn_q.weight"@].decode() is Ok)
            ==> e.layers@[i].q_weight@.len() == 0,
        m.contains_key("v.blk."@ + decimal(i as nat) + ".attn_q.bias"@)
            && m["v.blk."@ + decimal(i as nat) + ".attn_q.bias"@].bytes() is Some
            && m["v.blk."@ + decimal(i as nat) + ".attn_q.bias"@].decode() is Ok
            ==> e.layers@[i].q_bias@
            == m["v.blk."@ + decimal(i as nat) + ".attn_q.bias"@].decode()->Ok_0,
        !(m.contains_key("v.blk."@ + decimal(i as nat) + ".attn_q.bias"@)
            && m["v.blk."@ + decimal(i as nat) + ".attn_q.bias"@].bytes() is Some
            && m["v.blk."@ + decimal(i as nat) + ".attn_q.bias"@].decode() is Ok)
            ==> e.layers@[i].q_bias@.len() == 0,
        m.contains_key("v.blk."@ + decimal(i as nat) + ".attn_k.weight"@)
            && m["v.blk."@ + decimal(i as nat) + ".attn_k.weight"@].bytes() is Some
            && m["v.blk."@ + decimal(i as nat) + ".attn_k.weight"@].decode() is Ok
            ==> e.layers@[i].k_weight@
            == m["v.blk."@ + decimal(i as nat) + ".attn_k.weight"@].decode()->Ok_0,
        !(m.contains_key("v.blk."@ + decimal(i as nat) + ".attn_k.weight"@)
            && m["v.blk."@ + decimal(i as nat) + ".attn_k.weight"@].bytes() is Some
            && m["v.blk."@ + decimal(i as nat) + ".attn_k.weight"@].decode() is Ok)
            ==> e.layers@[i].k_weight@.len() == 0,
        m.contains_key("v.blk."@ + decimal(i as nat) + ".attn_k.bias"@)
            && m["v.blk."@ + decimal(i as nat) + ".attn_k.bias"@].bytes() is Some
            && m["v.blk."@ + decimal(i as nat) + ".attn_k.bias"@].decode() is Ok
            ==> e.layers@[i].k_bias@
            == m["v.blk."@ + decimal(i as nat) + ".attn_k.bias"@].decode()->Ok_0,
        !(m.contains_key("v.blk."@ + decimal(i as nat) + ".attn_k.bias"@)
            && m["v.blk."@ + decimal(i as nat) + ".attn_k.bias"@].bytes() is Some
            && m["v.blk."@ + decimal(i as nat) + ".attn_k.bias"@].decode() is Ok)
            ==> e.layers@[i].k_bias@.len() == 0,
        m.contains_key("v.blk."@ + decimal(i as nat) + ".attn_v.weight"@)
            && m["v.blk."@ + decimal(i as nat) + ".attn_v.weight"@].bytes() is Some
            && m["v.blk."@ + decimal(i as nat) + ".attn_v.weight"@].decode() is Ok
            ==> e.layers@[i].v_weight@
            == m["v.blk."@ + decimal(i as nat) + ".attn_v.weight"@].decode()->Ok_0,
        !(m.contains_key("v.blk."@ + decimal(i as nat) + ".attn_v.weight"@)
            && m["v.blk."@ + decimal(i as nat) + ".attn_v.weight"@].bytes() is Some
            && m["v.blk."@ + decimal(i as nat) + ".attn_v.weight"@].decode() is Ok)
            ==> e.layers@[i].v_weight@.len() == 0,
        m.contains_key("v.blk."@ + decimal(i as nat) + ".attn_v.bias"@)
            && m["v.blk."@ + decimal(i as nat) + ".attn_v.bias"@].bytes() is Some
            && m["v.blk."@ + decimal(i as nat) + ".attn_v.bias"@].decode() is Ok
            ==> e.layers@[i].v_bias@
            == m["v.blk."@ + decimal(i as nat) + ".attn_v.bias"@].decode()->Ok_0,
        !(m.contains_key("v.blk."@ + decimal(i as nat) + ".attn_v.bias"@)
            && m["v.blk."@ + decimal(i as nat) + ".attn_v.bias"@].bytes() is Some
            && m["v.blk."@ + decimal(i as nat) + ".attn_v.bias"@].decode() is Ok)
            ==> e.layers@[i].v_bias@.len() == 0,
        m.contains_key("v.blk."@ + decimal(i as nat) + ".attn_out.weight"@)
            && m["v.blk."@ + decimal(i as nat) + ".attn_out.weight"@].bytes() is Some
            && m["v.blk."@ + decimal(i as nat) + ".attn_out.weight"@].decode() is Ok
            ==> e.layers@[i].out_weight@
            == m["v.blk."@ + decimal(i as nat) + ".attn_out.weight"@].decode()->Ok_0,
        !(m.contains_key("v.blk."@ + decimal(i as nat) + ".attn_out.weight"@)
            && m["v.blk."@ + decimal(i as nat) + ".attn_out.weight"@].bytes() is Some
            && m["v.blk."@ + decimal(i as nat) + ".attn_out.weight"@].decode() is Ok)
            ==> e.layers@[i].out_weight@.len() == 0,
        m.contains_key("v.blk."@ + decimal(i as nat) + ".attn_out.bias"@)
            && m["v.blk."@ + decimal(i as nat) + ".attn_out.bias"@].bytes() is Some
            && m["v.blk."@ + decimal(i as nat) + ".attn_out.bias"@].decode() is Ok
            ==> e.layers@[i].out_bias@
            == m["v.blk."@ + decimal(i as nat) + ".attn_out.bias"@].decode()->Ok_0,
        !(m.contains_key("v.blk."@ + decimal(i as nat) + ".attn_out.bias"@)
            && m["v.blk."@ + decimal(i as nat) + ".attn_out.bias"@].bytes() is Some
            && m["v.blk."@ + decimal(i as nat) + ".attn_out.bias"@].decode() is Ok)
            ==> e.layers@[i].out_bias@.len() == 0,
        m.contains_key("v.blk."@ + decimal(i as nat) + ".ffn_up.weight"@)
            && m["v.blk."@ + decimal(i as nat) + ".ffn_up.weight"@].bytes() is Some
            && m["v.blk."@ + decimal(i as nat) + ".ffn_up.weight"@].decode() is Ok
            ==> e.layers@[i].fc1_weight@
            == m["v.blk."@ + decimal(i as nat) + ".ffn_up.weight"@].decode()->Ok_0,
        !(m.contains_key("v.blk."@ + decimal(i as nat) + ".ffn_up.weight"@)
            && m["v.blk."@ + decimal(i as nat) + ".ffn_up.weight"@].bytes() is Some
            && m["v.blk."@ + decimal(i as nat) + ".ffn_up.weight"@].decode() is Ok)
            ==> e.layers@[i].fc1_weight@.len() == 0,
        m.contains_key("v.blk."@ + decimal(i as nat) + ".ffn_up.bias"@)
            && m["v.blk."@ + decimal(i as nat) + ".ffn_up.bias"@].bytes() is Some
            && m["v.blk."@ + decimal(i as nat) + ".ffn_up.bias"@].decode() is Ok
            ==> e.layers@[i].fc1_bias@
            == m["v.blk."@ + decimal(i as nat) + ".ffn_up.bias"@].decode()->Ok_0,
        !(m.contains_key("v.blk."@ + decimal(i as nat) + ".ffn_up.bias"@)
            && m["v.blk."@ + decimal(i as nat) + ".ffn_up.bias"@].bytes() is Some
            && m["v.blk."@ + decimal(i as nat) + ".ffn_up.bias"@].decode() is Ok)
            ==> e.layers@[i].fc1_bias@.len() == 0,
        m.contains_key("v.blk."@ + decimal(i as nat) + ".ffn_down.weight"@)
            && m["v.blk."@ + decimal(i as nat) + ".ffn_down.weight"@].bytes() is Some
            && m["v.blk."@ + decimal(i as nat) + ".ffn_down.weight"@].decode() is Ok
            ==> e.layers@[i].fc2_weight@
            == m["v.blk."@ + decimal(i as nat) + ".ffn_down.weight"@].decode()->Ok_0,
        !(m.contains_key("v.blk."@ + decimal(i as nat) + ".ffn_down.weight"@)
            && m["v.blk."@ + decimal(i as nat) + ".ffn_down.weight"@].bytes() is Some
            && m["v.blk."@ + decimal(i as nat) + ".ffn_down.weight"@].decode() is Ok)
            ==> e.layers@[i].fc2_weight@.len() == 0,
        m.contains_key("v.blk."@ + decimal(i as nat) + ".ffn_down.bias"@)
            && m["v.blk."@ + decimal(i as nat) + ".ffn_down.bias"@].bytes() is Some
            && m["v.blk."@ + decimal(i as nat) + ".ffn_down.bias"@].decode() is Ok
            ==> e.layers@[i].fc2_bias@
            == m["v.blk."@ + decimal(i as nat) + ".ffn_down.bias"@].decode()->Ok_0,
        !(m.contains_key("v.blk."@ + decimal(i as nat) + ".ffn_down.bias"@)
            && m["v.blk."@ + decimal(i as nat) + ".ffn_down.bias"@].bytes() is Some
            && m["v.blk."@ + decimal(i as nat) + ".ffn_down.bias"@].decode() is Ok)
            ==> e.layers@[i].fc2_bias@.len() == 0,
        m.contains_key("v.patch_embd.weight"@) && m["v.patch_embd.weight"@].bytes() is Some
            && m["v.patch_embd.weight"@].decode() is Ok
            ==> e.patch_embd_weight@ == m["v.patch_embd.weight"@].decode()->Ok_0,
        !(m.contains_key("v.patch_embd.weight"@) && m["v.patch_embd.weight"@].bytes() is Some
            && m["v.patch_embd.weight"@].decode() is Ok) ==> e.patch_embd_weight@.len() == 0,
        m.contains_key("v.patch_embd.bias"@) && m["v.patch_embd.bias"@].bytes() is Some
            && m["v.patch_embd.bias"@].decode() is Ok
            ==> e.patch_embd_bias@ == m["v.patch_embd.bias"@].decode()->Ok_0,
        !(m.contains_key("v.patch_embd.bias"@) && m["v.patch_embd.bias"@].bytes() is Some
            && m["v.patch_embd.bias"@].decode() is Ok) ==> e.patch_embd_bias@.len() == 0,
        m.contains_key("v.position_embd.weight"@) && m["v.position_embd.weight"@].bytes() is Some
            && m["v.position_embd.weight"@].decode() is Ok
            ==> e.position_embd@ == m["v.position_embd.weight"@].decode()->Ok_0,
        !(m.contains_key("v.position_embd.weight"@)
            && m["v.position_embd.weight"@].bytes() is Some
            && m["v.position_embd.weight"@].decode() is Ok) ==> e.position_embd@.len() == 0,
        m.contains_key("v.pre_ln.weight"@) && m["v.pre_ln.weight"@].bytes() is Some
            && m["v.pre_ln.weight"@].decode() is Ok
            ==> e.pre_ln_weight@ == m["v.pre_ln.weight"@].decode()->Ok_0,
        !(m.contains_key("v.pre_ln.weight"@) && m["v.pre_ln.weight"@].bytes() is Some
            && m["v.pre_ln.weight"@].decode() is Ok) ==> e.pre_ln_weight@.len() == 0,
        m.contains_key("v.pre_ln.bias"@) && m["v.pre_ln.bias"@].bytes() is Some
            && m["v.pre_ln.bias"@].decode() is Ok
            ==> e.pre_ln_bias@ == m["v.pre_ln.bias"@].decode()->Ok_0,
        !(m.contains_key("v.pre_ln.bias"@) && m["v.pre_ln.bias"@].bytes() is Some
            && m["v.pre_ln.bias"@].decode() is Ok) ==> e.pre_ln_bias@.len() == 0,
        m.contains_key("v.post_ln.weight"@) && m["v.post_ln.weight"@].bytes() is Some
            && m["v.post_ln.weight"@].decode() is Ok
            ==> e.post_ln_weight@ == m["v.post_ln.weight"@].decode()->Ok_0,
        !(m.contains_key("v.post_ln.weight"@) && m["v.post_ln.weight"@].bytes() is Some
            && m["v.post_ln.weight"@].decode() is Ok) ==> e.post_ln_weight@.len() == 0,
        m.contains_key("v.post_ln.bias"@) && m["v.post_ln.bias"@].bytes() is Some
            && m["v.post_ln.bias"@].decode() is Ok
            ==> e.post_ln_bias@ == m["v.post_ln.bias"@].decode()->Ok_0,
        !(m.contains_key("v.post_ln.bias"@) && m["v.post_ln.bias"@].bytes() is Some
            && m["v.post_ln.bias"@].decode() is Ok) ==> e.post_ln_bias@.len() == 0,
        e.layers@.len() == 23,
        e.hidden_size == clip_hidden,
        e.num_heads == 16,
        e.patch_size == 14,
        e.image_size == 336,
{
    lemma_vision_tensor_is_spelled_out(i as nat);
    assert(is_vision_layer(e.layers@[i], m, i as nat));
}

/// The name of a tensor of the vision encoder is `v.blk.`, the layer's number and
/// the suffix.
proof fn lemma_vision_tensor_is_spelled_out(i: nat)
    ensures
        forall|s: Seq<char>| #[trigger] vision_tensor(i, s) == "v.blk."@ + decimal(i) + s,
{
    reveal_strlit("v.");
    reveal_strlit("blk.");
    reveal_strlit("v.blk.");
    assert("v."@ + "blk."@ =~= "v.blk."@);
    assert forall|s: Seq<char>|
        #[trigger] vision_tensor(i, s) == "v.blk."@ + decimal(i) + s by {
        assert("v."@ + ("blk."@ + decimal(i) + s) =~= "v."@ + "blk."@ + decimal(i) + s);
    }
}

/// The projector's layers are the tensors `mm.0` and `mm.2`. A missing first bias
/// is empty, and a missing second one is zero. A feature has as many elements as
/// the first layer has weights for each element of the decoder's hidden state.
pub proof fn law_projector_holds_its_tensors(p: MmProjector, m: TensorMap, hidden: usize)
    requires
        is_projector(p, m, hidden),
    ensures
        p.fc1_weight@ == m["mm.0.weight"@].decode()->Ok_0,
        p.fc2_weight@ == m["mm.2.weight"@].decode()->Ok_0,
        m.contains_key("mm.0.bias"@) && m["mm.0.bias"@].bytes() is Some
            && m["mm.0.bias"@].decode() is Ok ==> p.fc1_bias@ == m["mm.0.bias"@].decode()->Ok_0,
        !(m.contains_key("mm.0.bias"@) && m["mm.0.bias"@].bytes() is Some
            && m["mm.0.bias"@].decode() is Ok) ==> p.fc1_bias@.len() == 0,
        m.contains_key("mm.2.bias"@) && m["mm.2.bias"@].bytes() is Some
            && m["mm.2.bias"@].decode() is Ok ==> p.fc2_bias@ == m["mm.2.bias"@].decode()->Ok_0,
        !(m.contains_key("mm.2.bias"@) && m["mm.2.bias"@].bytes() is Some
            && m["mm.2.bias"@].decode() is Ok)
            ==> p.fc2_bias@ == Seq::new(hidden as nat, |k: int| 0u32),
        p.mm_hidden_size == hidden,
        p.llm_hidden_size == hidden,
        hidden == 0 || p.fc1_weight@.len() == 0 ==> p.clip_hidden_size == 1024,
        hidden > 0 && p.fc1_weight@.len() > 0 ==> p.clip_hidden_size == p.fc1_weight@.len() / (
        hidden as nat),
{
    if values_failure(m, "mm.2.bias"@) is Some {
        assert(p.fc2_bias@ =~= Seq::new(hidden as nat, |k: int| 0u32));
    }
}

/// The parts of a loaded model share the sizes of the decoder and of the
/// projector: the vision encoder's features are as wide as the projector takes
/// them.
pub proof fn law_parts_fit_together(l: LlavaModel, m: TensorMap, c: ModelConfigView)
    requires
        is_llava(l, m, c),
    ensures
        l.language_model.config@ == c,
        l.llm_hidden_size == c.hidden_size,
        l.mm_projector.llm_hidden_size == c.hidden_size,
        l.clip_hidden_size == l.mm_projector.clip_hidden_size,
        l.vision_encoder.hidden_size == l.mm_projector.clip_hidden_size,
{
}

/// An image is refused by the vision encoder first; the projector is asked for the
/// encoder's features, one of the hidden size for each patch, only where the
/// encoder takes the image.
pub proof fn law_encoder_is_asked_first(l: LlavaModel, pixels: nat)
    ensures
        l.vision_encoder.encode_failure(pixels) matches Some(e) ==> l.image_failure(pixels) == Some(
            e,
        ),
        l.vision_encoder.encode_failure(pixels) is None ==> l.image_failure(pixels)
            == l.mm_projector.project_failure(
            l.vision_encoder.patch_count() * (l.vision_encoder.hidden_size as nat),
        ),
{
}

/// A model loads exactly where its decoder loads and the two weights of the
/// projector can be decoded; the decoder's failure is reported first.
pub proof fn law_decoder_and_projector_decide(m: TensorMap, c: ModelConfigView)
    ensures
        llama_failure(m, c) matches Some(e) ==> llava_failure(m, c) == Some(e),
        llama_failure(m, c) is None ==> (values_failure(m, "mm.0.weight"@) matches Some(e)
            ==> llava_failure(m, c) == Some(e)),
        llama_failure(m, c) is None && values_failure(m, "mm.0.weight"@) is None ==> llava_failure(
            m,
            c,
        ) == values_failure(m, "mm.2.weight"@),
{
}

} // verus!
