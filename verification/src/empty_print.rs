//! Doubling a number, with printing switched off.
use vstd::prelude::*;
use crate::seahorn::any;

verus! {

/// A positive number below half the range doubles to something larger.
pub fn entrypt() {
    let v: i32 = any();
    if !(v >= 1) {
        return;
    }
    if !(v < i32::MAX / 2) {
        return;
    }
    let result: i32 = v * 2;
    assert(result > v);
}

} // verus!
