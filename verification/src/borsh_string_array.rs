//! Round trips of a string and of an array through the Borsh format.
use vstd::prelude::*;
use crate::seahorn::any;
use vstd::utf8::encode_utf8;
use crate::borsh_codec::{from_slice_i32_array, from_slice_string, le_bytes, lemma_le_roundtrip, lemma_le_signed_roundtrip, lemma_pow256_values, to_vec_i32_array, to_vec_string};

verus! {

/// The string "abc", encoded and decoded again, comes back equal.
pub fn test_string() {
    broadcast use vstd::string::to_string_from_display_ensures_for_str;
    broadcast use vstd::utf8::encode_utf8_decode_utf8, vstd::utf8::encode_utf8_valid_utf8;

    proof {
        lemma_pow256_values();
    }
    let x: String = "abc".to_string();
    proof {
        reveal_strlit("abc");
        vstd::utf8::is_ascii_chars_encode_utf8(x@);
        assert(encode_utf8(x@).len() == 3);
        lemma_le_roundtrip(3, 4);
    }
    let encoded: Vec<u8> = to_vec_string(&x).unwrap();
    proof {
        assert(encoded@.subrange(0, 4) =~= le_bytes(3, 4));
        assert(encoded@.subrange(4, encoded@.len() as int) =~= encode_utf8(x@));
    }
    let decoded: String = from_slice_string(encoded.as_slice()).unwrap();
    if decoded != x {
        assert(false);
    }
    let same: bool = decoded == x;
    assert(same);
}

/// An array of 0, 0 and a positive number, encoded and decoded again, has
/// the same length and the same first value.
pub fn test_fixed_sized_arrays() {
    proof {
        lemma_pow256_values();
    }
    let y: i32 = any();
    if !(y > 0) {
        return;
    }
    let x: [i32; 3] = [0, 0, y];
    let encoded: Vec<u8> = to_vec_i32_array(x).unwrap();
    proof {
        assert(x@[0] == 0 && x@[1] == 0 && x@[2] == y);
        lemma_le_signed_roundtrip(0, 4);
        lemma_le_signed_roundtrip(y as int, 4);
        assert(encoded@.subrange(0, 4) =~= le_bytes(x@[0] as int, 4));
    }
    let decoded: [i32; 3] = from_slice_i32_array(encoded.as_slice()).unwrap();
    assert(x@.len() == decoded@.len());
    assert(x@[0] == decoded@[0]);
}

/// Runs the harnesses.
pub fn entrypt() {
    test_string();
    test_fixed_sized_arrays();
}

} // verus!
