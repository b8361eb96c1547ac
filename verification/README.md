# oxillama_arch

Model-architecture logic for GGUF language models, verified with Verus.

The library holds what can be said of a model without floating-point arithmetic.
Values of type `f32` are carried as their 32-bit patterns.

- `src/config.rs`, `src/metadata.rs`: hyperparameters, read from metadata.
- `src/gguf.rs`, `src/common/load.rs`: tensors, the decoding of their bytes, and
  loading by name, with the first failure reported.
- `src/common/`: what the families share. `pass.rs` orders the stages of a
  forward pass; `heads.rs` and `batched.rs` plan what attention reads;
  `rope.rs` and `mrope.rs` plan rotations; `moe.rs` and `experts.rs` route tokens
  to experts; `embedding.rs` finds rows of embedding tables; `linear.rs` holds
  projections and their low-rank corrections.
- One module for each family, and `registry.rs`, which finds a family by its
  identifier.

`app/` holds what runs a model: the floating-point arithmetic on the plans that
the library makes, the buffers of hidden states and their cutting into tokens and
heads, and the traits of caches and kernels that a caller brings.

`tests/` runs the library; it checks the widening of half-precision numbers
against the `half` crate for every pattern.
