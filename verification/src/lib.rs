//! Verification jobs for Rust code: two hand-written growable vectors,
//! harnesses of the `smallvec`, `tinyvec` and `borsh` crates, small
//! programs over `Option`, `Result`, strings and references, and the
//! nondeterministic values that every harness draws. Each harness states
//! as assertions what its job checks, and Verus proves them for every
//! value drawn.
pub mod capacity;
pub mod iter_steps;
pub mod custom_vec;
pub mod custom_vec_raw_vec;
pub mod seahorn;
pub mod allocator;
pub mod sorting;
pub mod enum_as_param;
pub mod option_and_then;
pub mod option_or;
pub mod option_unwrap_or;
pub mod option_vec_map;
pub mod cfg_simplify;
pub mod option_double;
pub mod pointer;
pub mod pointer_same_arg;
pub mod read_across_f;
pub mod empty_print;
pub mod vec_push_pop;
pub mod vec_filter;
pub mod mock_test1;
pub mod result_as_deref;
pub mod result_copied;
pub mod result_cloned;
pub mod result_transpose;
pub mod result_unwrap_or_else;
pub mod result_iter_mut;
pub mod strings;
pub mod string_to_string;
pub mod string_parse;
pub mod borsh_codec;
pub mod borsh_primitives;
pub mod borsh_option;
pub mod borsh_structs;
pub mod borsh_string_array;
pub mod smallvec_ops;
pub mod smallvec_basic;
pub mod smallvec_bound2;
pub mod smallvec_bound4;
pub mod smallvec_bound8;
pub mod tinyvec_ops;
pub mod tinyvec_arrayvec;
pub mod tinyvec_capacity_error;
pub mod tinyvec_remove_error;
