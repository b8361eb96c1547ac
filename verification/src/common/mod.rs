//! Building blocks that several model families share.

pub mod attention;
pub mod batched;
pub mod embedding;
pub mod experts;
pub mod heads;
pub mod linear;
pub mod load;
pub mod mla;
pub mod moe;
pub mod mrope;
pub mod norm;
pub mod pass;
pub mod rope;
pub mod sizes;
pub mod sparse;
