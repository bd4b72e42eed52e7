//! An `ArrayVec` over an array longer than `u16::MAX` values reports a
//! capacity of `u16::MAX`, the most its `u16` length can count.
use vstd::prelude::*;
use crate::tinyvec_ops::{ArrayVec65536, av65536_new, av65536_capacity};

verus! {

/// The capacity of an `ArrayVec<[u32; 65536]>` is capped at `u16::MAX`.
pub fn entrypt() {
    let vec: ArrayVec65536 = av65536_new();
    let capacity: usize = av65536_capacity(&vec);
    assert(capacity == u16::MAX as usize);
}

} // verus!
