//! Round trips of options through the Borsh format.
use vstd::prelude::*;
use crate::seahorn::any;
use crate::borsh_codec::{from_slice_option_u32, from_slice_option_u8, le_bytes, lemma_le_roundtrip, lemma_pow256_values, to_vec_option_u32, to_vec_option_u8};

verus! {

/// `Some` of any `u32` and `None` of `u8`, encoded and decoded again, come
/// back equal.
pub fn test_option() {
    proof {
        lemma_pow256_values();
    }
    let x: Option<u32> = Some(any());
    let encoded: Vec<u8> = to_vec_option_u32(x).unwrap();
    proof {
        lemma_le_roundtrip(x->0 as int, 4);
        assert(encoded@.drop_first() =~= le_bytes(x->0 as int, 4));
    }
    let decoded: Option<u32> = from_slice_option_u32(encoded.as_slice()).unwrap();
    assert(x == decoded);
    let x: Option<u8> = None;
    let encoded: Vec<u8> = to_vec_option_u8(x).unwrap();
    let decoded: Option<u8> = from_slice_option_u8(encoded.as_slice()).unwrap();
    assert(x == decoded);
}

/// Runs the harness.
pub fn entrypt() {
    test_option();
}

} // verus!
