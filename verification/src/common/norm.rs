//! The weights of normalization layers.

use vstd::prelude::*;

verus! {

/// The weights of a root-mean-square norm.
#[derive(Debug)]
pub struct RmsNorm {
    /// The scale of each element.
    pub weight: Vec<u32>,
    /// The epsilon.
    pub eps: u32,
}

impl RmsNorm {
    /// A norm of given weights.
    pub fn new(weight: Vec<u32>, eps: u32) -> (n: Self)
        ensures
            n.weight == weight,
            n.eps == eps,
    {
        RmsNorm { weight, eps }
    }
}

/// The weights of a layer norm.
#[derive(Debug)]
pub struct LayerNorm {
    /// The scale of each element.
    pub weight: Vec<u32>,
    /// The shift of each element.
    pub bias: Option<Vec<u32>>,
    /// The epsilon.
    pub eps: u32,
}

impl LayerNorm {
    /// A norm of given weights.
    pub fn new(weight: Vec<u32>, bias: Option<Vec<u32>>, eps: u32) -> (n: Self)
        ensures
            n.weight == weight,
            n.bias == bias,
            n.eps == eps,
    {
        LayerNorm { weight, bias, eps }
    }
}

} // verus!
