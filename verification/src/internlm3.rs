//! InternLM3: a dense decoder with grouped-query attention.

use crate::config::ModelConfig;
use crate::error::ArchResult;
use crate::gguf::TensorStore;
use crate::traits::{
    add_pattern, build_refusal, no_patterns, pattern_views, refuse_build, tensor, ModelArchitecture,
    PatternView, TensorNamePattern,
};
use vstd::prelude::*;

verus! {

/// The family of models with the identifier `internlm3`.
#[derive(Debug, Clone, Copy)]
pub struct InternLm3Architecture;

impl InternLm3Architecture {
    /// The family.
    pub fn new() -> (a: Self)
        ensures
            a == InternLm3Architecture,
    {
        InternLm3Architecture
    }

    /// Answers a request to build a model from its tensors' names: the tensors'
    /// data can only be had from a file, so every request is refused.
    pub fn build(&self, config: &ModelConfig, _tensors: &TensorStore) -> (r: ArchResult<()>)
        ensures
            r matches Err(e) && e@ == build_refusal(
                config@,
                "token_embd.weight (use InternLm3Model::from_gguf for full loading)"@,
            ),
    {
        refuse_build(
            config,
            "token_embd.weight (use InternLm3Model::from_gguf for full loading)",
        )
    }
}

impl Default for InternLm3Architecture {
    fn default() -> (a: Self)
        ensures
            a == InternLm3Architecture,
    {
        InternLm3Architecture
    }
}

/// The tensors of the family.
pub open spec fn internlm3_patterns() -> Seq<PatternView> {
    seq![
        tensor("token_embd.weight"@, "Token embedding matrix"@, true),
        tensor("output_norm.weight"@, "Final RMSNorm"@, true),
        tensor("output.weight"@, "LM head / unembedding (may be tied to token_embd)"@, false),
        tensor("blk.{i}.attn_norm.weight"@, "Pre-attention RMSNorm"@, true),
        tensor("blk.{i}.attn_q.weight"@, "Query projection"@, true),
        tensor("blk.{i}.attn_k.weight"@, "Key projection"@, true),
        tensor("blk.{i}.attn_v.weight"@, "Value projection"@, true),
        tensor("blk.{i}.attn_output.weight"@, "Attention output projection"@, true),
        tensor("blk.{i}.ffn_norm.weight"@, "Pre-FFN RMSNorm"@, true),
        tensor("blk.{i}.ffn_gate.weight"@, "FFN gate projection (SwiGLU)"@, true),
        tensor("blk.{i}.ffn_up.weight"@, "FFN up projection"@, true),
        tensor("blk.{i}.ffn_down.weight"@, "FFN down projection"@, true),
    ]
}

/// Lists the tensors of the family.
fn internlm3_tensors() -> (v: Vec<TensorNamePattern>)
    ensures
        pattern_views(v@) == internlm3_patterns(),
{
    let mut v = no_patterns();
    add_pattern(&mut v, "token_embd.weight", "Token embedding matrix", true);
    add_pattern(&mut v, "output_norm.weight", "Final RMSNorm", true);
    add_pattern(
        &mut v,
        "output.weight",
        "LM head / unembedding (may be tied to token_embd)",
        false,
    );
    add_pattern(&mut v, "blk.{i}.attn_norm.weight", "Pre-attention RMSNorm", true);
    add_pattern(&mut v, "blk.{i}.attn_q.weight", "Query projection", true);
    add_pattern(&mut v, "blk.{i}.attn_k.weight", "Key projection", true);
    add_pattern(&mut v, "blk.{i}.attn_v.weight", "Value projection", true);
    add_pattern(&mut v, "blk.{i}.attn_output.weight", "Attention output projection", true);
    add_pattern(&mut v, "blk.{i}.ffn_norm.weight", "Pre-FFN RMSNorm", true);
    add_pattern(&mut v, "blk.{i}.ffn_gate.weight", "FFN gate projection (SwiGLU)", true);
    add_pattern(&mut v, "blk.{i}.ffn_up.weight", "FFN up projection", true);
    add_pattern(&mut v, "blk.{i}.ffn_down.weight", "FFN down projection", true);
    v
}

impl ModelArchitecture for InternLm3Architecture {
    open spec fn id(&self) -> Seq<char> {
        "internlm3"@
    }

    open spec fn tensors(&self) -> Seq<PatternView> {
        internlm3_patterns()
    }

    fn arch_id(&self) -> (r: &'static str) {
        "internlm3"
    }

    fn tensor_names(&self) -> (v: Vec<TensorNamePattern>) {
        internlm3_tensors()
    }
}

/// The family names its tensors in this order, says which of them a model cannot do
/// without, and describes each.
pub proof fn law_tensors_are_named_in_order(a: InternLm3Architecture)
    ensures
        a.id() == "internlm3"@,
        a.tensors() == internlm3_patterns(),
        internlm3_patterns().len() == 12,
        internlm3_patterns()[0].pattern == "token_embd.weight"@ && internlm3_patterns()[0].required,
        internlm3_patterns()[1].pattern == "output_norm.weight"@
            && internlm3_patterns()[1].required,
        internlm3_patterns()[2].pattern == "output.weight"@ && !internlm3_patterns()[2].required,
        internlm3_patterns()[3].pattern == "blk.{i}.attn_norm.weight"@
            && internlm3_patterns()[3].required,
        internlm3_patterns()[4].pattern == "blk.{i}.attn_q.weight"@
            && internlm3_patterns()[4].required,
        internlm3_patterns()[5].pattern == "blk.{i}.attn_k.weight"@
            && internlm3_patterns()[5].required,
        internlm3_patterns()[6].pattern == "blk.{i}.attn_v.weight"@
            && internlm3_patterns()[6].required,
        internlm3_patterns()[7].pattern == "blk.{i}.attn_output.weight"@
            && internlm3_patterns()[7].required,
        internlm3_patterns()[8].pattern == "blk.{i}.ffn_norm.weight"@
            && internlm3_patterns()[8].required,
        internlm3_patterns()[9].pattern == "blk.{i}.ffn_gate.weight"@
            && internlm3_patterns()[9].required,
        internlm3_patterns()[10].pattern == "blk.{i}.ffn_up.weight"@
            && internlm3_patterns()[10].required,
        internlm3_patterns()[11].pattern == "blk.{i}.ffn_down.weight"@
            && internlm3_patterns()[11].required,
        internlm3_patterns()[0].description == "Token embedding matrix"@,
        internlm3_patterns()[1].description == "Final RMSNorm"@,
        internlm3_patterns()[2].description == "LM head / unembedding (may be tied to token_embd)"@,
        internlm3_patterns()[3].description == "Pre-attention RMSNorm"@,
        internlm3_patterns()[4].description == "Query projection"@,
        internlm3_patterns()[5].description == "Key projection"@,
        internlm3_patterns()[6].description == "Value projection"@,
        internlm3_patterns()[7].description == "Attention output projection"@,
        internlm3_patterns()[8].description == "Pre-FFN RMSNorm"@,
        internlm3_patterns()[9].description == "FFN gate projection (SwiGLU)"@,
        internlm3_patterns()[10].description == "FFN up projection"@,
        internlm3_patterns()[11].description == "FFN down projection"@,
{
}

} // verus!
