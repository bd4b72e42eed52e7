//! Round trips of a tuple through the Borsh format.
use vstd::prelude::*;
use crate::seahorn::any;
use crate::borsh_codec::{from_slice_fields, le_bytes, lemma_le_signed_roundtrip, lemma_pow256_values, to_vec_fields};

verus! {

/// A tuple of a signed number, a byte, a flag and a unit, encoded and
/// decoded again, comes back equal.
pub fn test_fields() {
    proof {
        lemma_pow256_values();
    }
    let x: (i64, u8, bool, ()) = (any(), any(), any(), ());
    let encoded: Vec<u8> = to_vec_fields(x).unwrap();
    proof {
        lemma_le_signed_roundtrip(x.0 as int, 8);
        assert(encoded@.subrange(0, 8) =~= le_bytes(x.0 as int, 8));
    }
    let decoded: (i64, u8, bool, ()) = from_slice_fields(encoded.as_slice()).unwrap();
    assert(x == decoded);
}

/// Runs the harness.
pub fn entrypt() {
    test_fields();
}

} // verus!
