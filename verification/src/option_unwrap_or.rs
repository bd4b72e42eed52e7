//! Reading an `Option` with a default.
use vstd::prelude::*;
use crate::seahorn::any;

verus! {

/// An even number is read back, an odd one reads as the default 0.
pub fn entrypt() {
    let v: i32 = any();
    let result: Option<i32> = if (v & 1) == 1 {
        None
    } else {
        Some(v)
    };
    let result: i32 = result.unwrap_or(0);
    assert((v & 1) == 0 || (v & 1) == 1) by (bit_vector);
    if (v & 1) == 0 {
        assert(result == v);
    } else {
        assert(result == 0);
    }
}

} // verus!
