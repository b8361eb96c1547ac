//! LLaVA: a vision encoder in front of a LLaMA decoder.

pub mod clip;
pub mod model;
pub mod projector;

use crate::traits::{
    add_pattern, no_patterns, pattern_views, tensor, ModelArchitecture, PatternView,
    TensorNamePattern,
};
use vstd::prelude::*;

verus! {

/// The family of models with the identifier `llava`.
#[derive(Debug, Clone, Copy)]
pub struct LlavaArchitecture;

impl LlavaArchitecture {
    /// The family.
    pub fn new() -> (a: Self)
        ensures
            a == LlavaArchitecture,
    {
        LlavaArchitecture
    }
}

impl Default for LlavaArchitecture {
    fn default() -> (a: Self)
        ensures
            a == LlavaArchitecture,
    {
        LlavaArchitecture
    }
}

/// The tensors of the family.
pub open spec fn llava_patterns() -> Seq<PatternView> {
    seq![
        tensor("token_embd.weight"@, "Token embedding matrix"@, true),
        tensor("output_norm.weight"@, "Final RMSNorm"@, true),
        tensor("output.weight"@, "LM head / unembedding"@, true),
        tensor("blk.{i}.attn_norm.weight"@, "Pre-attention RMSNorm"@, true),
        tensor("blk.{i}.attn_q.weight"@, "Query projection"@, true),
        tensor("blk.{i}.attn_k.weight"@, "Key projection"@, true),
        tensor("blk.{i}.attn_v.weight"@, "Value projection"@, true),
        tensor("blk.{i}.attn_output.weight"@, "Attention output projection"@, true),
        tensor("blk.{i}.ffn_norm.weight"@, "Pre-FFN RMSNorm"@, true),
        tensor("blk.{i}.ffn_gate.weight"@, "FFN gate projection (SwiGLU)"@, true),
        tensor("blk.{i}.ffn_up.weight"@, "FFN up projection"@, true),
        tensor("blk.{i}.ffn_down.weight"@, "FFN down projection"@, true),
        tensor("mm.0.weight"@, "MM projector FC1 weight [mm_hidden_size, clip_hidden_size]"@, true),
        tensor("mm.0.bias"@, "MM projector FC1 bias [mm_hidden_size]"@, false),
        tensor("mm.2.weight"@, "MM projector FC2 weight [llm_hidden_size, mm_hidden_size]"@, true),
        tensor("mm.2.bias"@, "MM projector FC2 bias [llm_hidden_size]"@, false),
        tensor("v.patch_embd.weight"@, "CLIP patch embedding"@, false),
        tensor("v.position_embd.weight"@, "CLIP position embeddings"@, false),
        tensor("v.pre_ln.weight"@, "CLIP pre-norm scale"@, false),
        tensor("v.pre_ln.bias"@, "CLIP pre-norm bias"@, false),
        tensor("v.post_ln.weight"@, "CLIP post-norm scale"@, false),
        tensor("v.post_ln.bias"@, "CLIP post-norm bias"@, false),
        tensor("v.blk.{i}.ln1.weight"@, "CLIP first norm scale"@, false),
        tensor("v.blk.{i}.ln1.bias"@, "CLIP first norm bias"@, false),
        tensor("v.blk.{i}.ln2.weight"@, "CLIP second norm scale"@, false),
        tensor("v.blk.{i}.ln2.bias"@, "CLIP second norm bias"@, false),
        tensor("v.blk.{i}.attn_q.weight"@, "CLIP query projection"@, false),
        tensor("v.blk.{i}.attn_q.bias"@, "CLIP query bias"@, false),
        tensor("v.blk.{i}.attn_k.weight"@, "CLIP key projection"@, false),
        tensor("v.blk.{i}.attn_k.bias"@, "CLIP key bias"@, false),
        tensor("v.blk.{i}.attn_v.weight"@, "CLIP value projection"@, false),
        tensor("v.blk.{i}.attn_v.bias"@, "CLIP value bias"@, false),
        tensor("v.blk.{i}.attn_out.weight"@, "CLIP attention output projection"@, false),
        tensor("v.blk.{i}.attn_out.bias"@, "CLIP attention output bias"@, false),
        tensor("v.blk.{i}.ffn_up.weight"@, "CLIP FFN up projection"@, false),
        tensor("v.blk.{i}.ffn_up.bias"@, "CLIP FFN up bias"@, false),
        tensor("v.blk.{i}.ffn_down.weight"@, "CLIP FFN down projection"@, false),
        tensor("v.blk.{i}.ffn_down.bias"@, "CLIP FFN down bias"@, false),
    ]
}

/// Lists the tensors of the family.
fn llava_tensors() -> (v: Vec<TensorNamePattern>)
    ensures
        pattern_views(v@) == llava_patterns(),
{
    let mut v = no_patterns();
    add_pattern(&mut v, "token_embd.weight", "Token embedding matrix", true);
    add_pattern(&mut v, "output_norm.weight", "Final RMSNorm", true);
    add_pattern(&mut v, "output.weight", "LM head / unembedding", true);
    add_pattern(&mut v, "blk.{i}.attn_norm.weight", "Pre-attention RMSNorm", true);
    add_pattern(&mut v, "blk.{i}.attn_q.weight", "Query projection", true);
    add_pattern(&mut v, "blk.{i}.attn_k.weight", "Key projection", true);
    add_pattern(&mut v, "blk.{i}.attn_v.weight", "Value projection", true);
    add_pattern(&mut v, "blk.{i}.attn_output.weight", "Attention output projection", true);
    add_pattern(&mut v, "blk.{i}.ffn_norm.weight", "Pre-FFN RMSNorm", true);
    add_pattern(&mut v, "blk.{i}.ffn_gate.weight", "FFN gate projection (SwiGLU)", true);
    add_pattern(&mut v, "blk.{i}.ffn_up.weight", "FFN up projection", true);
    add_pattern(&mut v, "blk.{i}.ffn_down.weight", "FFN down projection", true);
    add_pattern(
        &mut v,
        "mm.0.weight",
        "MM projector FC1 weight [mm_hidden_size, clip_hidden_size]",
        true,
    );
    add_pattern(&mut v, "mm.0.bias", "MM projector FC1 bias [mm_hidden_size]", false);
    add_pattern(
        &mut v,
        "mm.2.weight",
        "MM projector FC2 weight [llm_hidden_size, mm_hidden_size]",
        true,
    );
    add_pattern(&mut v, "mm.2.bias", "MM projector FC2 bias [llm_hidden_size]", false);
    add_pattern(&mut v, "v.patch_embd.weight", "CLIP patch embedding", false);
    add_pattern(&mut v, "v.position_embd.weight", "CLIP position embeddings", false);
    add_pattern(&mut v, "v.pre_ln.weight", "CLIP pre-norm scale", false);
    add_pattern(&mut v, "v.pre_ln.bias", "CLIP pre-norm bias", false);
    add_pattern(&mut v, "v.post_ln.weight", "CLIP post-norm scale", false);
    add_pattern(&mut v, "v.post_ln.bias", "CLIP post-norm bias", false);
    add_pattern(&mut v, "v.blk.{i}.ln1.weight", "CLIP first norm scale", false);
    add_pattern(&mut v, "v.blk.{i}.ln1.bias", "CLIP first norm bias", false);
    add_pattern(&mut v, "v.blk.{i}.ln2.weight", "CLIP second norm scale", false);
    add_pattern(&mut v, "v.blk.{i}.ln2.bias", "CLIP second norm bias", false);
    add_pattern(&mut v, "v.blk.{i}.attn_q.weight", "CLIP query projection", false);
    add_pattern(&mut v, "v.blk.{i}.attn_q.bias", "CLIP query bias", false);
    add_pattern(&mut v, "v.blk.{i}.attn_k.weight", "CLIP key projection", false);
    add_pattern(&mut v, "v.blk.{i}.attn_k.bias", "CLIP key bias", false);
    add_pattern(&mut v, "v.blk.{i}.attn_v.weight", "CLIP value projection", false);
    add_pattern(&mut v, "v.blk.{i}.attn_v.bias", "CLIP value bias", false);
    add_pattern(&mut v, "v.blk.{i}.attn_out.weight", "CLIP attention output projection", false);
    add_pattern(&mut v, "v.blk.{i}.attn_out.bias", "CLIP attention output bias", false);
    add_pattern(&mut v, "v.blk.{i}.ffn_up.weight", "CLIP FFN up projection", false);
    add_pattern(&mut v, "v.blk.{i}.ffn_up.bias", "CLIP FFN up bias", false);
    add_pattern(&mut v, "v.blk.{i}.ffn_down.weight", "CLIP FFN down projection", false);
    add_pattern(&mut v, "v.blk.{i}.ffn_down.bias", "CLIP FFN down bias", false);
    v
}

impl ModelArchitecture for LlavaArchitecture {
    open spec fn id(&self) -> Seq<char> {
        "llava"@
    }

    open spec fn tensors(&self) -> Seq<PatternView> {
        llava_patterns()
    }

    fn arch_id(&self) -> (r: &'static str) {
        "llava"
    }

    fn tensor_names(&self) -> (v: Vec<TensorNamePattern>) {
        llava_tensors()
    }
}

/// The family names its tensors in this order, says which of them a model cannot do
/// without, and describes each.
pub proof fn law_tensors_are_named_in_order(a: LlavaArchitecture)
    ensures
        a.id() == "llava"@,
        a.tensors() == llava_patterns(),
        llava_patterns().len() == 38,
        llava_patterns()[0].pattern == "token_embd.weight"@ && llava_patterns()[0].required,
        llava_patterns()[1].pattern == "output_norm.weight"@ && llava_patterns()[1].required,
        llava_patterns()[2].pattern == "output.weight"@ && llava_patterns()[2].required,
        llava_patterns()[3].pattern == "blk.{i}.attn_norm.weight"@ && llava_patterns()[3].required,
        llava_patterns()[4].pattern == "blk.{i}.attn_q.weight"@ && llava_patterns()[4].required,
        llava_patterns()[5].pattern == "blk.{i}.attn_k.weight"@ && llava_patterns()[5].required,
        llava_patterns()[6].pattern == "blk.{i}.attn_v.weight"@ && llava_patterns()[6].required,
        llava_patterns()[7].pattern == "blk.{i}.attn_output.weight"@
            && llava_patterns()[7].required,
        llava_patterns()[8].pattern == "blk.{i}.ffn_norm.weight"@ && llava_patterns()[8].required,
        llava_patterns()[9].pattern == "blk.{i}.ffn_gate.weight"@ && llava_patterns()[9].required,
        llava_patterns()[10].pattern == "blk.{i}.ffn_up.weight"@ && llava_patterns()[10].required,
        llava_patterns()[11].pattern == "blk.{i}.ffn_down.weight"@ && llava_patterns()[11].required,
        llava_patterns()[12].pattern == "mm.0.weight"@ && llava_patterns()[12].required,
        llava_patterns()[13].pattern == "mm.0.bias"@ && !llava_patterns()[13].required,
        llava_patterns()[14].pattern == "mm.2.weight"@ && llava_patterns()[14].required,
        llava_patterns()[15].pattern == "mm.2.bias"@ && !llava_patterns()[15].required,
        llava_patterns()[16].pattern == "v.patch_embd.weight"@ && !llava_patterns()[16].required,
        llava_patterns()[17].pattern == "v.position_embd.weight"@ && !llava_patterns()[17].required,
        llava_patterns()[18].pattern == "v.pre_ln.weight"@ && !llava_patterns()[18].required,
        llava_patterns()[19].pattern == "v.pre_ln.bias"@ && !llava_patterns()[19].required,
        llava_patterns()[20].pattern == "v.post_ln.weight"@ && !llava_patterns()[20].required,
        llava_patterns()[21].pattern == "v.post_ln.bias"@ && !llava_patterns()[21].required,
        llava_patterns()[22].pattern == "v.blk.{i}.ln1.weight"@ && !llava_patterns()[22].required,
        llava_patterns()[23].pattern == "v.blk.{i}.ln1.bias"@ && !llava_patterns()[23].required,
        llava_patterns()[24].pattern == "v.blk.{i}.ln2.weight"@ && !llava_patterns()[24].required,
        llava_patterns()[25].pattern == "v.blk.{i}.ln2.bias"@ && !llava_patterns()[25].required,
        llava_patterns()[26].pattern == "v.blk.{i}.attn_q.weight"@
            && !llava_patterns()[26].required,
        llava_patterns()[27].pattern == "v.blk.{i}.attn_q.bias"@ && !llava_patterns()[27].required,
        llava_patterns()[28].pattern == "v.blk.{i}.attn_k.weight"@
            && !llava_patterns()[28].required,
        llava_patterns()[29].pattern == "v.blk.{i}.attn_k.bias"@ && !llava_patterns()[29].required,
        llava_patterns()[30].pattern == "v.blk.{i}.attn_v.weight"@
            && !llava_patterns()[30].required,
        llava_patterns()[31].pattern == "v.blk.{i}.attn_v.bias"@ && !llava_patterns()[31].required,
        llava_patterns()[32].pattern == "v.blk.{i}.attn_out.weight"@
            && !llava_patterns()[32].required,
        llava_patterns()[33].pattern == "v.blk.{i}.attn_out.bias"@
            && !llava_patterns()[33].required,
        llava_patterns()[34].pattern == "v.blk.{i}.ffn_up.weight"@
            && !llava_patterns()[34].required,
        llava_patterns()[35].pattern == "v.blk.{i}.ffn_up.bias"@ && !llava_patterns()[35].required,
        llava_patterns()[36].pattern == "v.blk.{i}.ffn_down.weight"@
            && !llava_patterns()[36].required,
        llava_patterns()[37].pattern == "v.blk.{i}.ffn_down.bias"@
            && !llava_patterns()[37].required,
        llava_patterns()[0].description == "Token embedding matrix"@,
        llava_patterns()[1].description == "Final RMSNorm"@,
        llava_patterns()[2].description == "LM head / unembedding"@,
        llava_patterns()[3].description == "Pre-attention RMSNorm"@,
        llava_patterns()[4].description == "Query projection"@,
        llava_patterns()[5].description == "Key projection"@,
        llava_patterns()[6].description == "Value projection"@,
        llava_patterns()[7].description == "Attention output projection"@,
        llava_patterns()[8].description == "Pre-FFN RMSNorm"@,
        llava_patterns()[9].description == "FFN gate projection (SwiGLU)"@,
        llava_patterns()[10].description == "FFN up projection"@,
        llava_patterns()[11].description == "FFN down projection"@,
        llava_patterns()[12].description
            == "MM projector FC1 weight [mm_hidden_size, clip_hidden_size]"@,
        llava_patterns()[13].description == "MM projector FC1 bias [mm_hidden_size]"@,
        llava_patterns()[14].description
            == "MM projector FC2 weight [llm_hidden_size, mm_hidden_size]"@,
        llava_patterns()[15].description == "MM projector FC2 bias [llm_hidden_size]"@,
        llava_patterns()[16].description == "CLIP patch embedding"@,
        llava_patterns()[17].description == "CLIP position embeddings"@,
        llava_patterns()[18].description == "CLIP pre-norm scale"@,
        llava_patterns()[19].description == "CLIP pre-norm bias"@,
        llava_patterns()[20].description == "CLIP post-norm scale"@,
        llava_patterns()[21].description == "CLIP post-norm bias"@,
        llava_patterns()[22].description == "CLIP first norm scale"@,
        llava_patterns()[23].description == "CLIP first norm bias"@,
        llava_patterns()[24].description == "CLIP second norm scale"@,
        llava_patterns()[25].description == "CLIP second norm bias"@,
        llava_patterns()[26].description == "CLIP query projection"@,
        llava_patterns()[27].description == "CLIP query bias"@,
        llava_patterns()[28].description == "CLIP key projection"@,
        llava_patterns()[29].description == "CLIP key bias"@,
        llava_patterns()[30].description == "CLIP value projection"@,
        llava_patterns()[31].description == "CLIP value bias"@,
        llava_patterns()[32].description == "CLIP attention output projection"@,
        llava_patterns()[33].description == "CLIP attention output bias"@,
        llava_patterns()[34].description == "CLIP FFN up projection"@,
        llava_patterns()[35].description == "CLIP FFN up bias"@,
        llava_patterns()[36].description == "CLIP FFN down projection"@,
        llava_patterns()[37].description == "CLIP FFN down bias"@,
{
}

} // verus!
