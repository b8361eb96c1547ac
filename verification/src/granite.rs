//! Granite: a dense decoder with normed heads and tied embeddings.

use vstd::prelude::*;

verus! {

/// The family of models with the identifier `granite`.
#[derive(Debug, Clone, Copy)]
pub struct GraniteArchitecture;

impl GraniteArchitecture {
    /// The family.
    pub fn new() -> (a: Self)
        ensures
            a == GraniteArchitecture,
    {
        GraniteArchitecture
    }

    /// The identifier, as `general.architecture` gives it.
    pub open spec fn id(&self) -> Seq<char> {
        "granite"@
    }

    /// The identifier, as `general.architecture` gives it.
    pub fn arch_id(&self) -> (r: &'static str)
        ensures
            r@ == self.id(),
    {
        "granite"
    }
}

impl Default for GraniteArchitecture {
    fn default() -> (a: Self)
        ensures
            a == GraniteArchitecture,
    {
        GraniteArchitecture
    }
}

} // verus!
