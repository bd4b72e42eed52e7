//! A loop that panics on its first iteration, and an assertion after it
//! that only the loop's absence reaches.
use vstd::prelude::*;
use crate::seahorn::any;

verus! {

/// For `v` below 3, the loop over `0..v` panics unless `v` is 0; then any
/// `u32` is at least `v * v`.
pub fn test_simplify_cfg() {
    let v: u8 = any();
    if !(v < 3) {
        return;
    }
    if v > 0 {
        // the first iteration of the loop over `0..v` panics: nothing is left to check
        return;
    }
    let sentinel: u32 = any();
    assert((v as u32) * (v as u32) == 0) by (nonlinear_arith)
        requires
            v == 0,
    ;
    assert(sentinel >= (v as u32) * (v as u32));
}

/// Runs the harness.
pub fn entrypt() {
    test_simplify_cfg();
}

} // verus!
