//! Round trips of the primitive types through the Borsh format.
use vstd::prelude::*;
use crate::seahorn::any;
use crate::borsh_codec::{from_slice_bool, from_slice_i16, from_slice_i32, from_slice_i64, from_slice_i8, from_slice_isize, from_slice_u16, from_slice_u32, from_slice_u64, from_slice_u8, from_slice_unit, from_slice_usize, law_primitive_roundtrips, to_vec_bool, to_vec_i16, to_vec_i32, to_vec_i64, to_vec_i8, to_vec_isize, to_vec_u16, to_vec_u32, to_vec_u64, to_vec_u8, to_vec_unit, to_vec_usize};

verus! {

/// Every primitive value, encoded and decoded again, comes back equal, as
/// `law_primitive_roundtrips` states for all values of each type.
pub fn test_primitives() {
    proof {
        law_primitive_roundtrips();
    }
    let x: () = ();
    let encoded: Vec<u8> = to_vec_unit(x).unwrap();
    let decoded: () = from_slice_unit(encoded.as_slice()).unwrap();
    assert(x == decoded);
    let x: bool = any();
    let encoded: Vec<u8> = to_vec_bool(x).unwrap();
    let decoded: bool = from_slice_bool(encoded.as_slice()).unwrap();
    assert(x == decoded);
    let x: u8 = any();
    let encoded: Vec<u8> = to_vec_u8(x).unwrap();
    let decoded: u8 = from_slice_u8(encoded.as_slice()).unwrap();
    assert(x == decoded);
    let x: i8 = any();
    let encoded: Vec<u8> = to_vec_i8(x).unwrap();
    let decoded: i8 = from_slice_i8(encoded.as_slice()).unwrap();
    assert(x == decoded);
    let x: u16 = any();
    let encoded: Vec<u8> = to_vec_u16(x).unwrap();
    let decoded: u16 = from_slice_u16(encoded.as_slice()).unwrap();
    assert(x == decoded);
    let x: i16 = any();
    let encoded: Vec<u8> = to_vec_i16(x).unwrap();
    let decoded: i16 = from_slice_i16(encoded.as_slice()).unwrap();
    assert(x == decoded);
    let x: u32 = any();
    let encoded: Vec<u8> = to_vec_u32(x).unwrap();
    let decoded: u32 = from_slice_u32(encoded.as_slice()).unwrap();
    assert(x == decoded);
    let x: i32 = any();
    let encoded: Vec<u8> = to_vec_i32(x).unwrap();
    let decoded: i32 = from_slice_i32(encoded.as_slice()).unwrap();
    assert(x == decoded);
    let x: u64 = any();
    let encoded: Vec<u8> = to_vec_u64(x).unwrap();
    let decoded: u64 = from_slice_u64(encoded.as_slice()).unwrap();
    assert(x == decoded);
    let x: i64 = any();
    let encoded: Vec<u8> = to_vec_i64(x).unwrap();
    let decoded: i64 = from_slice_i64(encoded.as_slice()).unwrap();
    assert(x == decoded);
    let x: usize = any();
    let encoded: Vec<u8> = to_vec_usize(x).unwrap();
    let decoded: usize = from_slice_usize(encoded.as_slice()).unwrap();
    assert(x == decoded);
    let x: isize = any();
    let encoded: Vec<u8> = to_vec_isize(x).unwrap();
    let decoded: isize = from_slice_isize(encoded.as_slice()).unwrap();
    assert(x == decoded);
    let x: usize = any();
    let encoded: Vec<u8> = to_vec_usize(x).unwrap();
    let decoded: usize = from_slice_usize(encoded.as_slice()).unwrap();
    assert(x == decoded);
    let x: isize = any();
    let encoded: Vec<u8> = to_vec_isize(x).unwrap();
    let decoded: isize = from_slice_isize(encoded.as_slice()).unwrap();
    assert(x == decoded);
}

/// Runs the harness.
pub fn entrypt() {
    test_primitives();
}

} // verus!
