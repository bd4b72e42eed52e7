//! Incrementing a local twice through a mutable reference to it.
use vstd::prelude::*;
use crate::seahorn::any;

verus! {

/// Two increments through a reference add two.
pub fn entrypt() {
    let mut v: i32 = any();
    if !(v > 0) {
        return;
    }
    if !(v < i32::MAX - 2) {
        return;
    }
    let original: i32 = v;
    let n: &mut i32 = &mut v;
    *n = *n + 1;
    *n = *n + 1;
    assert(v == original + 2);
}

} // verus!
