//! Model-architecture logic for GGUF language models.
//!
//! The crate holds what can be said of a model without floating-point
//! arithmetic: which hyperparameters a metadata store describes, which tensors
//! an architecture needs, how their bytes become weights, which parts of caches,
//! tables and weights a layer reads, in which order tokens go through layers, and
//! which requests are refused and why. Values of type `f32` are carried as their
//! 32-bit patterns. Whoever runs a model does the arithmetic on the plans, keeps
//! the buffers of hidden states, and cuts them into tokens and heads.

pub mod bits;
pub mod command_r;
pub mod common;
pub mod config;
pub mod dbrx;
pub mod deepseek;
pub mod error;
pub mod falcon;
pub mod gemma;
pub mod gguf;
pub mod gpt_neox;
pub mod granite;
pub mod grok;
pub mod internlm3;
pub mod llama;
pub mod llava;
pub mod llava_next;
pub mod mamba2;
pub mod metadata;
pub mod minicpm;
pub mod mixtral;
pub mod olmo2;
pub mod phi;
pub mod registry;
pub mod table;
pub mod text;
pub mod traits;
