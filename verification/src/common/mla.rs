//! Attention over compressed keys and values: parameters, weights and cache.

use crate::common::linear::QuantLinear;
use crate::common::norm::RmsNorm;
use crate::common::rope::RopeTable;
use vstd::prelude::*;

verus! {

/// The parameters of latent attention.
#[derive(Debug, Clone, Copy, PartialEq, Eq)]
pub struct MlaConfig {
    /// Number of heads.
    pub num_heads: usize,
    /// Rank of the compressed query.
    pub q_lora_rank: usize,
    /// Rank of the compressed key and value.
    pub kv_lora_rank: usize,
    /// Head dimension of the part of queries and keys without positions.
    pub qk_nope_head_dim: usize,
    /// Head dimension of the part of queries and keys with positions.
    pub qk_rope_head_dim: usize,
    /// Head dimension of values.
    pub v_head_dim: usize,
    /// Base frequency of the rotary embedding, as a pattern.
    pub rope_theta: u32,
    /// The head dimension of whole queries and keys. Scores are divided by its
    /// square root.
    pub qk_head_dim: usize,
}

/// The weights of latent attention.
#[derive(Debug)]
pub struct MlaWeights {
    /// Compression of the query.
    pub w_q_a: QuantLinear,
    /// Norm of the compressed query.
    pub q_a_norm: RmsNorm,
    /// Expansion of the query.
    pub w_q_b: QuantLinear,
    /// Compression of key and value.
    pub w_kv_a: QuantLinear,
    /// Norm of the compressed key and value.
    pub kv_a_norm: RmsNorm,
    /// Expansion of key and value.
    pub w_kv_b: QuantLinear,
    /// Output projection.
    pub w_o: QuantLinear,
    /// The table of angles.
    pub rope: RopeTable,
}

/// The compressed keys and values of past tokens.
#[derive(Debug)]
pub struct MlaLatentCache {
    /// Greatest number of tokens.
    pub max_seq_len: usize,
    /// The compressed keys and values, one row for each token.
    pub latents: Vec<u32>,
    /// The rotated parts of the keys, one row for each token.
    pub rope_keys: Vec<u32>,
}

impl MlaLatentCache {
    /// Whether nothing is cached.
    pub open spec fn is_empty(&self) -> bool {
        self.latents@.len() == 0 && self.rope_keys@.len() == 0
    }

    /// An empty cache.
    pub fn new(max_seq_len: usize) -> (c: Self)
        ensures
            c.max_seq_len == max_seq_len,
            c.is_empty(),
    {
        MlaLatentCache { max_seq_len, latents: Vec::new(), rope_keys: Vec::new() }
    }

    /// Forgets all tokens.
    pub fn clear(&mut self)
        ensures
            final(self).max_seq_len == old(self).max_seq_len,
            final(self).is_empty(),
    {
        self.latents.clear();
        self.rope_keys.clear();
    }
}

/// An empty cache holds neither compressed keys and values nor rotated keys.
pub proof fn law_empty_cache_holds_nothing(c: MlaLatentCache)
    ensures
        c.is_empty() <==> c.latents@.len() == 0 && c.rope_keys@.len() == 0,
{
}

} // verus!
