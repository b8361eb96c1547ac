//! Loading weights by name.

use crate::common::linear::{inputs_of, outputs_of, QuantLinear, QuantTensor};
use crate::common::norm::RmsNorm;
use crate::error::{
    follows, missing_tensor, ArchError, ArchErrorView, ArchResult, GgufError, GgufErrorView,
};
use crate::gguf::{copy_range, data_failure, dequant_to_f32, GgufModel, TensorMap};
use vstd::prelude::*;

verus! {

/// Why a tensor cannot be taken as it is, if it cannot: it is missing, or its
/// bytes are.
pub open spec fn bytes_failure(m: TensorMap, name: Seq<char>) -> Option<ArchErrorView> {
    if !m.contains_key(name) {
        Some(ArchErrorView::MissingTensor { name })
    } else if m[name].bytes() is None {
        Some(ArchErrorView::Gguf(GgufErrorView::TensorDataUnavailable { name }))
    } else {
        None
    }
}

/// Why the elements of a tensor cannot be had, if they cannot: the tensor or
/// its bytes are missing, or a kernel failed on them.
pub open spec fn values_failure(m: TensorMap, name: Seq<char>) -> Option<ArchErrorView> {
    match bytes_failure(m, name) {
        Some(e) => Some(e),
        None => match m[name].decode() {
            Ok(_) => None,
            Err(e) => Some(e),
        },
    }
}

/// Why the elements of a tensor cannot be had, where a missing tensor is the
/// file's failure.
pub open spec fn embedding_failure(m: TensorMap, name: Seq<char>) -> Option<ArchErrorView> {
    match data_failure(m, name) {
        Some(e) => Some(ArchErrorView::Gguf(e)),
        None => match m[name].decode() {
            Ok(_) => None,
            Err(e) => Some(e),
        },
    }
}

/// The elements of a tensor.
pub open spec fn values_of(m: TensorMap, name: Seq<char>) -> Seq<u32> {
    m[name].decode()->Ok_0
}

/// Whether a linear layer holds a tensor as it is stored, without bias and
/// without correction.
pub open spec fn is_linear(l: QuantLinear, m: TensorMap, name: Seq<char>) -> bool {
    &&& m[name].bytes() == Some(l.weight.data@)
    &&& l.weight.shape@ == m[name].dims()
    &&& l.weight.tensor_type == m[name].kind()
    &&& l.bias is None
    &&& l.lora is None
    &&& l.out_features == outputs_of(m[name].dims())
    &&& l.in_features == inputs_of(m[name].dims())
}

/// Whether a norm holds the elements of a tensor.
pub open spec fn is_norm(n: RmsNorm, m: TensorMap, name: Seq<char>, eps: u32) -> bool {
    n.weight@ == values_of(m, name) && n.eps == eps
}

/// Whether two files have the same tensor under a name, or neither has one.
pub open spec fn same_tensor(m: TensorMap, n: TensorMap, name: Seq<char>) -> bool {
    &&& m.contains_key(name) <==> n.contains_key(name)
    &&& m.contains_key(name) ==> m[name] == n[name]
}

/// Loading a tensor depends on nothing but that tensor.
pub proof fn lemma_same_tensor(m: TensorMap, n: TensorMap, name: Seq<char>)
    requires
        same_tensor(m, n, name),
    ensures
        bytes_failure(m, name) == bytes_failure(n, name),
        values_failure(m, name) == values_failure(n, name),
        m.contains_key(name) ==> values_of(m, name) == values_of(n, name),
{
}

/// Loads the elements of a tensor.
pub fn load_dequant_tensor(model: &GgufModel, name: &str) -> (r: ArchResult<Vec<u32>>)
    ensures
        follows(r, values_failure(model.tensors@, name@)),
        r matches Ok(v) ==> v@ == values_of(model.tensors@, name@),
{
    match model.tensors.get(name) {
        Ok(t) => {
            if t.data().is_some() {
                dequant_to_f32(t)
            } else {
                Err(
                    ArchError::Gguf(
                        GgufError::TensorDataUnavailable { name: String::from_str(name) },
                    ),
                )
            }
        },
        Err(_) => Err(missing_tensor(name)),
    }
}

/// Loads the elements of the embedding table.
pub fn load_embedding(model: &GgufModel, name: &str) -> (r: ArchResult<Vec<u32>>)
    ensures
        follows(r, embedding_failure(model.tensors@, name@)),
        r matches Ok(v) ==> v@ == values_of(model.tensors@, name@),
{
    match model.tensor_data(name) {
        Ok(_) => match model.tensors.get(name) {
            Ok(t) => dequant_to_f32(t),
            Err(e) => Err(ArchError::Gguf(e)),
        },
        Err(e) => Err(ArchError::Gguf(e)),
    }
}

/// Loads a linear layer.
pub fn load_quant_linear(model: &GgufModel, name: &str) -> (r: ArchResult<QuantLinear>)
    ensures
        follows(r, bytes_failure(model.tensors@, name@)),
        r matches Ok(l) ==> is_linear(l, model.tensors@, name@),
{
    match model.tensors.get(name) {
        Ok(t) => match t.data() {
            Some(d) => {
                let data = copy_range(d, 0, d.len());
                assert(data@ =~= d@);
                let shape = copy_shape(t.dimensions());
                Ok(
                    QuantLinear::new(
                        QuantTensor { data, shape, tensor_type: t.tensor_type() },
                        None,
                    ),
                )
            },
            None => Err(
                ArchError::Gguf(GgufError::TensorDataUnavailable { name: String::from_str(name) }),
            ),
        },
        Err(_) => Err(missing_tensor(name)),
    }
}

/// Why a tensor cannot be taken as it is, where a tensor without bytes is a
/// missing tensor.
pub open spec fn needed_bytes_failure(m: TensorMap, name: Seq<char>) -> Option<ArchErrorView> {
    if bytes_failure(m, name) is Some {
        Some(ArchErrorView::MissingTensor { name })
    } else {
        None
    }
}

/// Why the elements of a tensor cannot be had, where a tensor without bytes is
/// a missing tensor.
pub open spec fn needed_values_failure(m: TensorMap, name: Seq<char>) -> Option<ArchErrorView> {
    if bytes_failure(m, name) is Some {
        Some(ArchErrorView::MissingTensor { name })
    } else {
        values_failure(m, name)
    }
}

/// Loads the elements of a tensor, where a tensor without bytes is a missing
/// tensor.
pub fn load_needed_values(model: &GgufModel, name: &str) -> (r: ArchResult<Vec<u32>>)
    ensures
        follows(r, needed_values_failure(model.tensors@, name@)),
        r matches Ok(v) ==> v@ == values_of(model.tensors@, name@),
{
    match model.tensors.get(name) {
        Ok(t) => {
            if t.data().is_some() {
                dequant_to_f32(t)
            } else {
                Err(missing_tensor(name))
            }
        },
        Err(_) => Err(missing_tensor(name)),
    }
}

/// Loads a linear layer, where a tensor without bytes is a missing tensor.
pub fn load_needed_linear(model: &GgufModel, name: &str) -> (r: ArchResult<QuantLinear>)
    ensures
        follows(r, needed_bytes_failure(model.tensors@, name@)),
        r matches Ok(l) ==> is_linear(l, model.tensors@, name@),
{
    match load_quant_linear(model, name) {
        Ok(l) => Ok(l),
        Err(_) => Err(missing_tensor(name)),
    }
}

/// Loads a norm, where a tensor without bytes is a missing tensor.
pub fn load_needed_norm(model: &GgufModel, name: &str, eps: u32) -> (r: ArchResult<RmsNorm>)
    ensures
        follows(r, needed_values_failure(model.tensors@, name@)),
        r matches Ok(n) ==> is_norm(n, model.tensors@, name@, eps),
{
    let weight = load_needed_values(model, name)?;
    Ok(RmsNorm::new(weight, eps))
}

/// The elements of a tensor that a model can do without: none where they cannot
/// be had.
pub open spec fn optional_values(m: TensorMap, name: Seq<char>) -> Seq<u32> {
    if values_failure(m, name) is None {
        values_of(m, name)
    } else {
        Seq::empty()
    }
}

/// Loads the elements of a tensor that a model can do without.
pub fn load_optional(model: &GgufModel, name: &str) -> (v: Vec<u32>)
    ensures
        v@ == optional_values(model.tensors@, name@),
{
    match load_dequant_tensor(model, name) {
        Ok(v) => v,
        Err(_) => Vec::new(),
    }
}

/// Whether a norm that a model can do without holds the elements of a tensor,
/// and is there exactly where they can be had.
pub open spec fn is_optional_norm(
    n: Option<RmsNorm>,
    m: TensorMap,
    name: Seq<char>,
    eps: u32,
) -> bool {
    match n {
        Some(n) => values_failure(m, name) is None && is_norm(n, m, name, eps),
        None => values_failure(m, name) is Some,
    }
}

/// Loads a norm that a model can do without.
pub fn load_optional_norm(model: &GgufModel, name: &str, eps: u32) -> (n: Option<RmsNorm>)
    ensures
        is_optional_norm(n, model.tensors@, name@, eps),
{
    match load_rms_norm(model, name, eps) {
        Ok(n) => Some(n),
        Err(_) => None,
    }
}

/// The first of two names under which there is a tensor, or else the second.
pub open spec fn name_of(m: TensorMap, first: Seq<char>, second: Seq<char>) -> Seq<char> {
    if m.contains_key(first) {
        first
    } else {
        second
    }
}

/// Chooses between two names of a tensor.
pub fn choose_name(model: &GgufModel, first: String, second: String) -> (name: String)
    ensures
        name@ == name_of(model.tensors@, first@, second@),
{
    if model.tensors.contains(first.as_str()) {
        first
    } else {
        second
    }
}

fn copy_shape(v: &Vec<usize>) -> (out: Vec<usize>)
    ensures
        out@ == v@,
{
    let mut out: Vec<usize> = Vec::new();
    let mut i: usize = 0;
    while i < v.len()
        invariant
            i <= v@.len(),
            out@ == v@.subrange(0, i as int),
        decreases v@.len() - i,
    {
        out.push(v[i]);
        assert(out@ =~= v@.subrange(0, i + 1));
        i = i + 1;
    }
    assert(out@ =~= v@);
    out
}

/// Loads a norm.
pub fn load_rms_norm(model: &GgufModel, name: &str, eps: u32) -> (r: ArchResult<RmsNorm>)
    ensures
        follows(r, values_failure(model.tensors@, name@)),
        r matches Ok(n) ==> is_norm(n, model.tensors@, name@, eps),
{
    let weight = load_dequant_tensor(model, name)?;
    Ok(RmsNorm::new(weight, eps))
}

/// A loaded linear layer has the bytes, the dimensions and the storage type of
/// its tensor. Its first dimension is its number of outputs, its second that of
/// its inputs. It has no bias, and no correction yet.
pub proof fn law_linear_layer_is_its_tensor(l: QuantLinear, m: TensorMap, name: Seq<char>)
    requires
        is_linear(l, m, name),
    ensures
        m[name].bytes() == Some(l.weight.data@),
        l.weight.shape@ == m[name].dims(),
        l.weight.tensor_type == m[name].kind(),
        l.bias is None,
        l.lora is None,
        m[name].dims().len() == 2 ==> l.out_features == m[name].dims()[0] && l.in_features
            == m[name].dims()[1],
{
}

/// A loaded norm has the decoded elements of its tensor and the given epsilon.
pub proof fn law_norm_is_its_tensor(n: RmsNorm, m: TensorMap, name: Seq<char>, eps: u32)
    requires
        is_norm(n, m, name, eps),
    ensures
        n.weight@ == m[name].decode()->Ok_0,
        n.eps == eps,
{
}

/// A tensor can be taken as it is exactly where the file has it with its bytes.
/// A tensor that is not there is reported by its name.
pub proof fn law_tensor_without_bytes_fails(m: TensorMap, name: Seq<char>)
    ensures
        bytes_failure(m, name) is None <==> m.contains_key(name) && m[name].bytes() is Some,
        !m.contains_key(name) ==> bytes_failure(m, name) == Some(
            ArchErrorView::MissingTensor { name },
        ),
        m.contains_key(name) && m[name].bytes() is None ==> bytes_failure(m, name) == Some(
            ArchErrorView::Gguf(GgufErrorView::TensorDataUnavailable { name }),
        ),
        needed_bytes_failure(m, name) is None <==> m.contains_key(name) && m[name].bytes() is Some,
        !(m.contains_key(name) && m[name].bytes() is Some) ==> needed_bytes_failure(m, name)
            == Some(ArchErrorView::MissingTensor { name }),
{
}

/// The elements of a tensor can be had exactly where the file has it with its
/// bytes and they can be decoded; what stops the decoding is reported.
pub proof fn law_tensor_without_values_fails(m: TensorMap, name: Seq<char>)
    ensures
        values_failure(m, name) is None <==> m.contains_key(name) && m[name].bytes() is Some
            && m[name].decode() is Ok,
        !m.contains_key(name) ==> values_failure(m, name) == Some(
            ArchErrorView::MissingTensor { name },
        ),
        m.contains_key(name) && m[name].bytes() is Some ==> {
            &&& m[name].decode() matches Err(e) ==> values_failure(m, name) == Some(e)
            &&& needed_values_failure(m, name) == values_failure(m, name)
            &&& embedding_failure(m, name) == values_failure(m, name)
        },
        !(m.contains_key(name) && m[name].bytes() is Some) ==> needed_values_failure(m, name)
            == Some(ArchErrorView::MissingTensor { name }),
        !m.contains_key(name) ==> embedding_failure(m, name) == Some(
            ArchErrorView::Gguf(GgufErrorView::TensorNotFound { name }),
        ),
        m.contains_key(name) && m[name].bytes() is None ==> embedding_failure(m, name) == Some(
            ArchErrorView::Gguf(GgufErrorView::TensorDataUnavailable { name }),
        ),
{
}

/// A tensor that a model can do without counts where its elements can be had,
/// and is passed over elsewhere.
pub proof fn law_optional_tensors_are_passed_over(
    n: Option<RmsNorm>,
    m: TensorMap,
    name: Seq<char>,
    eps: u32,
)
    requires
        is_optional_norm(n, m, name, eps),
    ensures
        n is Some <==> m.contains_key(name) && m[name].bytes() is Some && m[name].decode() is Ok,
        n matches Some(x) ==> x.weight@ == m[name].decode()->Ok_0 && x.eps == eps,
        n is Some ==> optional_values(m, name) == m[name].decode()->Ok_0,
        n is None ==> optional_values(m, name).len() == 0,
{
}

/// A tensor with two names is taken under the first where the file has it there.
pub proof fn law_first_name_is_preferred(m: TensorMap, first: Seq<char>, second: Seq<char>)
    ensures
        m.contains_key(first) ==> name_of(m, first, second) == first,
        !m.contains_key(first) ==> name_of(m, first, second) == second,
{
}

} // verus!
