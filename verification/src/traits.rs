//! What an architecture is.

use crate::config::{ModelConfig, ModelConfigView};
use crate::error::{
    missing_tensor, zero_parameter, zero_parameter_view, ArchErrorView, ArchResult,
};
use vstd::prelude::*;

verus! {

/// A tensor that an architecture uses. The name of a layer's tensor has a
/// placeholder for the layer.
#[derive(Debug)]
pub struct TensorNamePattern {
    /// The tensor's name.
    pub pattern: String,
    /// What the tensor is.
    pub description: String,
    /// Whether a model cannot do without it.
    pub required: bool,
}

/// The content of a [`TensorNamePattern`].
pub struct PatternView {
    pub pattern: Seq<char>,
    pub description: Seq<char>,
    pub required: bool,
}

impl View for TensorNamePattern {
    type V = PatternView;

    open spec fn view(&self) -> PatternView {
        PatternView {
            pattern: self.pattern@,
            description: self.description@,
            required: self.required,
        }
    }
}

/// The contents of patterns.
pub open spec fn pattern_views(s: Seq<TensorNamePattern>) -> Seq<PatternView> {
    Seq::new(s.len(), |i: int| s[i]@)
}

/// A tensor of a name, with a description.
pub open spec fn tensor(pattern: Seq<char>, description: Seq<char>, required: bool) -> PatternView {
    PatternView { pattern, description, required }
}

/// No patterns yet.
pub(crate) fn no_patterns() -> (v: Vec<TensorNamePattern>)
    ensures
        pattern_views(v@) == Seq::<PatternView>::empty(),
{
    let v: Vec<TensorNamePattern> = Vec::new();
    assert(pattern_views(v@) =~= Seq::<PatternView>::empty());
    v
}

/// Adds a pattern.
pub(crate) fn add_pattern(
    v: &mut Vec<TensorNamePattern>,
    pattern: &str,
    description: &str,
    required: bool,
)
    ensures
        pattern_views(final(v)@) == pattern_views(old(v)@).push(
            tensor(pattern@, description@, required),
        ),
{
    v.push(
        TensorNamePattern {
            pattern: String::from_str(pattern),
            description: String::from_str(description),
            required,
        },
    );
    assert(pattern_views(v@) =~= pattern_views(old(v)@).push(
        tensor(pattern@, description@, required),
    ));
}

/// A family of models.
pub trait ModelArchitecture {
    /// The identifier.
    spec fn id(&self) -> Seq<char>;

    /// The tensors, in order.
    spec fn tensors(&self) -> Seq<PatternView>;

    /// The identifier, as `general.architecture` gives it.
    fn arch_id(&self) -> (r: &'static str)
        ensures
            r@ == self.id(),
    ;

    /// The tensors that models of this family use.
    fn tensor_names(&self) -> (v: Vec<TensorNamePattern>)
        ensures
            pattern_views(v@) == self.tensors(),
    ;
}

/// How a family that cannot be built from tensor names alone answers: a
/// configuration without heads or without hidden state is refused for that, and
/// any other for the tensor that is `missing`.
pub open spec fn build_refusal(c: ModelConfigView, missing: Seq<char>) -> ArchErrorView {
    if c.num_attention_heads == 0 {
        zero_parameter_view("num_attention_heads"@)
    } else if c.hidden_size == 0 {
        zero_parameter_view("hidden_size"@)
    } else {
        ArchErrorView::MissingTensor { name: missing }
    }
}

/// Refuses to build a model from tensor names alone.
pub(crate) fn refuse_build(config: &ModelConfig, missing: &str) -> (r: ArchResult<()>)
    ensures
        r matches Err(e) && e@ == build_refusal(config@, missing@),
{
    if config.num_attention_heads == 0 {
        return Err(zero_parameter("num_attention_heads"));
    }
    if config.hidden_size == 0 {
        return Err(zero_parameter("hidden_size"));
    }
    Err(missing_tensor(missing))
}

/// A configuration without heads is refused for that, one without a hidden state
/// for that, and any other for the missing tensor.
pub proof fn law_zero_sizes_are_refused_first(c: ModelConfigView, missing: Seq<char>)
    ensures
        c.num_attention_heads == 0 ==> build_refusal(c, missing) == (ArchErrorView::ConfigMismatch {
            param: "num_attention_heads"@,
            expected: ">0"@,
            got: "0"@,
        }),
        c.num_attention_heads > 0 && c.hidden_size == 0 ==> build_refusal(c, missing) == (
        ArchErrorView::ConfigMismatch { param: "hidden_size"@, expected: ">0"@, got: "0"@ }),
        c.num_attention_heads > 0 && c.hidden_size > 0 ==> build_refusal(c, missing) == (
        ArchErrorView::MissingTensor { name: missing }),
{
}

/// A listed tensor keeps its name, its description and whether it is needed.
pub proof fn law_listed_tensors_are_kept(s: Seq<TensorNamePattern>, i: int)
    requires
        0 <= i < s.len(),
    ensures
        pattern_views(s).len() == s.len(),
        pattern_views(s)[i].pattern == s[i].pattern@,
        pattern_views(s)[i].description == s[i].description@,
        pattern_views(s)[i].required == s[i].required,
{
}

} // verus!
