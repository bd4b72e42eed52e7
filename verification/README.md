# verify_rust

Verification jobs for Rust code, proved with Verus.

- `src/` is the verified library. Each job is a module whose harnesses draw
  their inputs with `seahorn::any` and state, as Verus assertions, what the
  job checks; Verus proves them for every value drawn.
  - `custom_vec`, `custom_vec_raw_vec`: two hand-written growable vectors
    with an owning double-ended iterator, their well-formedness, their
    contracts over a `Seq` view, and the laws that relate their operations.
  - `smallvec_ops`, `tinyvec_ops`, `borsh_codec`: the calls into the
    `smallvec`, `tinyvec` and `borsh` crates, each behind a trusted wrapper
    whose contract states what the crate's source does; the harness modules
    next to them are verified against those contracts.
  - the remaining modules: small programs over `Option`, `Result`, strings,
    references and enums, and the decisions of the C-library allocator.
- `tests/` runs the library, and checks concrete values of the facts that
  the trusted wrappers state of the outside crates.
- `app/` holds what the library cannot: the global allocator and the
  verifier's C hooks, harnesses over borsh's derives, the mock of the
  `Test` trait, harnesses over raw pointers, and harnesses that exist to
  reach a panic.

The jobs over `SeaVec` (`test_macros`, `test_push_pop`, `test_indexing`,
`test_deref_deref_mut`, `test_insert_remove`, `test_drop`, `test_iter`,
`test_drain`, `test_zst`) are not here, in `src/` or in `app/`: `SeaVec` and
`sea_vec!` belong to the `sea` crate, whose source is not part of this
project and cannot be had, so there is nothing for them to call.
