//! Pushing onto and popping from a `Vec`.
use vstd::prelude::*;

verus! {

/// Three pushes and a pop onto three values leave five.
pub fn entrypt() {
    let mut v: Vec<i32> = vec![1, 2, 3];
    v.push(4);
    v.push(5);
    v.push(6);
    let _ = v.pop();
    let result: usize = v.len();
    assert(result == 5);
}

} // verus!
