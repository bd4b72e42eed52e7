//! The decisions of an allocator that takes its memory from the C library:
//! which requests it serves, and how much a reallocation copies. The calls
//! into the C library are made around these.
use vstd::prelude::*;

verus! {

/// An allocator over the C library's `malloc` and `free`.
pub struct CAllocator {}

impl CAllocator {
    /// Whether a request for `size` bytes is served: one for no bytes is an
    /// error.
    pub fn serves(&self, size: usize) -> (r: bool)
        ensures
            r <==> size > 0,
    {
        size != 0
    }

    /// How many bytes a reallocation from a block of `old_size` bytes to one
    /// of `new_size` bytes copies: the smaller of the two, so that it reads
    /// and writes within both blocks.
    pub fn realloc_copy_len(&self, old_size: usize, new_size: usize) -> (r: usize)
        ensures
            r == if old_size <= new_size { old_size } else { new_size },
    {
        if old_size <= new_size {
            old_size
        } else {
            new_size
        }
    }
}

} // verus!
