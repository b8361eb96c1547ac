//! Linear layers with weights in the file's own format.

use crate::bits::F32_ZERO;
use crate::common::sizes::{row_at, row_start, row_starts};
use crate::gguf::TensorType;
use crate::table::NameTable;
use std::sync::Arc;
use vstd::prelude::*;

verus! {

/// A weight matrix in the file's own format.
#[derive(Debug)]
pub struct QuantTensor {
    /// The bytes.
    pub data: Vec<u8>,
    /// The dimensions.
    pub shape: Vec<usize>,
    /// How elements are stored.
    pub tensor_type: TensorType,
}

/// A low-rank correction of a linear layer: `b` times `a`, scaled.
#[derive(Debug)]
pub struct LoraAdapter {
    /// The first factor, one row for each rank.
    pub a: Vec<u32>,
    /// The second factor, one row for each output.
    pub b: Vec<u32>,
    /// The rank.
    pub rank: usize,
    /// The scale.
    pub scale: u32,
}

impl LoraAdapter {
    /// Whether the factors have all rows for a layer of given numbers of inputs
    /// and outputs.
    pub open spec fn fits(&self, inputs: nat, outputs: nat) -> bool {
        self.rank * inputs <= self.a@.len() && outputs * self.rank <= self.b@.len()
    }

    /// Plans the correction of a layer: where the rows of both factors begin.
    /// `None` where a factor has too few elements.
    pub fn apply(&self, inputs: usize, outputs: usize) -> (r: Option<LoraRows>)
        ensures
            r is Some <==> self.fits(inputs as nat, outputs as nat),
            r matches Some(x) ==> {
                &&& x.a@.len() == self.rank
                &&& forall|i: int| 0 <= i < x.a@.len() ==> #[trigger] x.a@[i] == i * inputs
                &&& x.b@.len() == outputs
                &&& forall|i: int| 0 <= i < x.b@.len() ==> #[trigger] x.b@[i] == i * self.rank
            },
    {
        let a_len: usize = self.a.len();
        let b_len: usize = self.b.len();
        let fits_a: bool = match self.rank.checked_mul(inputs) {
            Some(n) => n <= a_len,
            None => false,
        };
        let fits_b: bool = match outputs.checked_mul(self.rank) {
            Some(n) => n <= b_len,
            None => false,
        };
        if fits_a && fits_b {
            Some(
                LoraRows {
                    a: row_starts(self.rank, inputs, a_len),
                    b: row_starts(outputs, self.rank, b_len),
                },
            )
        } else {
            None
        }
    }
}

/// Where the rows of a correction's factors begin. Every row of the first meets
/// the input; every row of the second meets what they give, and its product,
/// scaled, is added to an output.
#[derive(Debug)]
pub struct LoraRows {
    /// Rows of the first factor, one for each rank.
    pub a: Vec<usize>,
    /// Rows of the second factor, one for each output.
    pub b: Vec<usize>,
}

/// The adapters of a file, each under the name of the tensor that it corrects.
#[derive(Debug)]
pub struct LoadedLora {
    table: NameTable<Arc<LoraAdapter>>,
}

impl View for LoadedLora {
    type V = Map<Seq<char>, Arc<LoraAdapter>>;

    closed spec fn view(&self) -> Map<Seq<char>, Arc<LoraAdapter>> {
        self.table@
    }
}

impl LoadedLora {
    /// No adapters.
    pub fn new() -> (s: Self)
        ensures
            s@ == Map::<Seq<char>, Arc<LoraAdapter>>::empty(),
    {
        LoadedLora { table: NameTable::new() }
    }

    /// Adds an adapter, in place of the one that the tensor may have had.
    pub fn insert(&mut self, tensor: String, adapter: Arc<LoraAdapter>)
        ensures
            final(self)@ == old(self)@.insert(tensor@, adapter),
    {
        self.table.insert(tensor, adapter)
    }

    /// The adapter of a tensor.
    pub fn get(&self, tensor: &str) -> (r: Option<Arc<LoraAdapter>>)
        ensures
            r == (if self@.contains_key(tensor@) {
                Some(self@[tensor@])
            } else {
                None
            }),
    {
        match self.table.get(tensor) {
            Some(a) => Some(a.clone()),
            None => None,
        }
    }
}

/// A linear layer, with an optional low-rank correction.
#[derive(Debug)]
pub struct QuantLinear {
    /// The weights, one row for each output.
    pub weight: QuantTensor,
    /// The bias.
    pub bias: Option<Vec<u32>>,
    /// Number of outputs.
    pub out_features: usize,
    /// Number of inputs.
    pub in_features: usize,
    /// The correction.
    pub lora: Option<Arc<LoraAdapter>>,
}

/// The number of outputs of a weight matrix.
pub open spec fn outputs_of(shape: Seq<usize>) -> usize {
    if shape.len() == 0 {
        0
    } else {
        shape[0]
    }
}

/// The number of inputs of a weight matrix.
pub open spec fn inputs_of(shape: Seq<usize>) -> usize {
    if shape.len() < 2 {
        0
    } else {
        shape[1]
    }
}

impl QuantLinear {
    /// A layer without correction.
    pub fn new(weight: QuantTensor, bias: Option<Vec<u32>>) -> (l: Self)
        ensures
            l.weight == weight,
            l.bias == bias,
            l.out_features == outputs_of(weight.shape@),
            l.in_features == inputs_of(weight.shape@),
            l.lora is None,
    {
        let out_features: usize = if weight.shape.is_empty() {
            0
        } else {
            weight.shape[0]
        };
        let in_features: usize = if weight.shape.len() < 2 {
            0
        } else {
            weight.shape[1]
        };
        QuantLinear { weight, bias, out_features, in_features, lora: None }
    }

    /// Whether only the correction may differ from another layer.
    pub open spec fn same_but_lora(&self, other: &QuantLinear) -> bool {
        &&& self.weight == other.weight
        &&& self.bias == other.bias
        &&& self.out_features == other.out_features
        &&& self.in_features == other.in_features
    }

    /// Attaches a correction, in place of the one that may have been there.
    pub fn set_lora(&mut self, lora: Arc<LoraAdapter>)
        ensures
            final(self).same_but_lora(old(self)),
            final(self).lora == Some(lora),
    {
        self.lora = Some(lora);
    }

    /// Removes the correction.
    pub fn clear_lora(&mut self)
        ensures
            final(self).same_but_lora(old(self)),
            final(self).lora is None,
    {
        self.lora = None;
    }

    /// The correction after an adapter file was applied under a tensor's name:
    /// the file's adapter for that tensor, or else the correction from before.
    pub open spec fn lora_after(
        &self,
        adapters: Map<Seq<char>, Arc<LoraAdapter>>,
        tensor: Seq<char>,
    ) -> Option<Arc<LoraAdapter>> {
        if adapters.contains_key(tensor) {
            Some(adapters[tensor])
        } else {
            self.lora
        }
    }

    /// Takes the adapter of a tensor from an adapter file, if it has one.
    pub fn patch(&mut self, lora: &LoadedLora, tensor: &str)
        ensures
            final(self).same_but_lora(old(self)),
            final(self).lora == old(self).lora_after(lora@, tensor@),
    {
        match lora.get(tensor) {
            Some(adapter) => {
                self.set_lora(adapter);
            },
            None => {},
        }
    }
}

/// What one output of a dense matrix product reads: where its row of weights
/// begins, where the matrix has one, and its bias.
#[derive(Debug, Clone, Copy, PartialEq, Eq)]
pub struct RowRead {
    /// Where the row begins. An output without a row is its bias alone.
    pub start: Option<usize>,
    /// The bias, as a pattern.
    pub bias: u32,
}

/// What output `i` reads.
pub open spec fn row_read(weight_len: int, bias: Seq<u32>, in_dim: int, i: int) -> RowRead {
    RowRead {
        start: row_at(i, in_dim, weight_len),
        bias: if i < bias.len() {
            bias[i]
        } else {
            F32_ZERO
        },
    }
}

/// Plans a dense matrix product with `out_dim` outputs.
pub fn linear_proj(weight_len: usize, bias: &Vec<u32>, out_dim: usize, in_dim: usize) -> (plan: Vec<
    RowRead,
>)
    ensures
        plan@ == Seq::new(
            out_dim as nat,
            |i: int| row_read(weight_len as int, bias@, in_dim as int, i),
        ),
{
    let mut plan: Vec<RowRead> = Vec::new();
    let mut i: usize = 0;
    while i < out_dim
        invariant
            i <= out_dim,
            plan@ == Seq::new(
                i as nat,
                |j: int| row_read(weight_len as int, bias@, in_dim as int, j),
            ),
        decreases out_dim - i,
    {
        let b: u32 = if i < bias.len() {
            bias[i]
        } else {
            F32_ZERO
        };
        plan.push(RowRead { start: row_start(i, in_dim, weight_len), bias: b });
        assert(plan@ =~= Seq::new(
            (i + 1) as nat,
            |j: int| row_read(weight_len as int, bias@, in_dim as int, j),
        ));
        i = i + 1;
    }
    plan
}

/// Attaching a correction and removing it again leaves a layer as it was, if
/// it had none.
pub proof fn law_clear_undoes_set(before: QuantLinear, set: QuantLinear, cleared: QuantLinear)
    requires
        before.lora is None,
        set.same_but_lora(&before),
        cleared.same_but_lora(&set),
        cleared.lora is None,
    ensures
        cleared == before,
{
}

/// An adapter file changes the correction of a layer exactly where it has an
/// adapter for the layer's tensor, and puts that one in its place.
pub proof fn law_named_adapter_is_taken(
    l: QuantLinear,
    adapters: Map<Seq<char>, Arc<LoraAdapter>>,
    tensor: Seq<char>,
    other: Seq<char>,
    adapter: Arc<LoraAdapter>,
)
    requires
        other != tensor,
    ensures
        l.lora_after(adapters.insert(tensor, adapter), tensor) == Some(adapter),
        l.lora_after(adapters.insert(other, adapter), tensor) == l.lora_after(adapters, tensor),
        !adapters.contains_key(tensor) ==> l.lora_after(adapters, tensor) == l.lora,
{
}

/// The first dimension of a weight matrix counts its outputs, and the second its
/// inputs; a missing dimension counts none.
pub proof fn law_dimensions_of_a_matrix(shape: Seq<usize>)
    ensures
        shape.len() >= 1 ==> outputs_of(shape) == shape[0],
        shape.len() >= 2 ==> inputs_of(shape) == shape[1],
        shape.len() == 0 ==> outputs_of(shape) == 0,
        shape.len() <= 1 ==> inputs_of(shape) == 0,
{
}

/// Output `i` of a dense matrix product reads the weights from `i * in_dim` on,
/// where the matrix has all of them, and its own bias, or zero where there is
/// none.
pub proof fn law_outputs_read_their_rows(
    plan: Seq<RowRead>,
    weight_len: usize,
    bias: Seq<u32>,
    out_dim: nat,
    in_dim: nat,
    i: int,
)
    requires
        plan == Seq::new(
            out_dim,
            |j: int| row_read(weight_len as int, bias, in_dim as int, j),
        ),
        0 <= i < out_dim,
    ensures
        plan.len() == out_dim,
        plan[i].start is Some <==> i * in_dim + in_dim <= weight_len,
        plan[i].start matches Some(s) ==> s == i * in_dim,
        i < bias.len() ==> plan[i].bias == bias[i],
        i >= bias.len() ==> plan[i].bias == 0,
{
    assert(i * in_dim >= 0) by (nonlinear_arith)
        requires
            i >= 0,
    ;
    assert(plan[i] == row_read(weight_len as int, bias, in_dim as int, i));
}

/// An adapter fits a layer exactly where its first factor has a row of the
/// inputs for each rank, and its second a row of the ranks for each output.
pub proof fn law_adapter_fits_by_its_factors(a: LoraAdapter, inputs: nat, outputs: nat)
    ensures
        a.fits(inputs, outputs) <==> a.a@.len() >= a.rank * inputs && a.b@.len() >= outputs
            * a.rank,
{
}

} // verus!
