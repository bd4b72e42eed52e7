//! Removing from an `ArrayVec` at an index past its length panics rather
//! than shrinking it.
use vstd::prelude::*;
use crate::seahorn::any;
use crate::tinyvec_ops::{ArrayVec8, av8_items, av8_new, av8_len, av8_push, av8_remove};

verus! {

/// Removing within the values takes one out; an index past them is one at
/// which `remove` panics.
pub fn entrypt() {
    let mut v: ArrayVec8 = av8_new();
    let len: usize = any();
    if !(len <= 8) {
        return;
    }
    for i in 0..len
        invariant
            len <= 8,
            av8_items(v).len() == i,
    {
        av8_push(&mut v, any());
    }
    let remove_point: usize = any();
    if !(remove_point <= 8) {
        return;
    }
    if !(remove_point < len) {
        // removing past the length panics: nothing is left to check
        assert(remove_point >= av8_items(v).len());
        return;
    }
    av8_remove(&mut v, remove_point);
    let length: usize = av8_len(&v);
    assert(length == len - 1);
}

} // verus!
