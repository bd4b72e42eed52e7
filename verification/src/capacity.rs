//! The allocation arithmetic shared by the hand-written vectors.
use vstd::prelude::*;
use vstd::layout::size_of;

verus! {

/// The capacity that a buffer of capacity `cap` grows to: one slot when
/// it is empty, twice as many slots otherwise.
pub open spec fn grown_cap(cap: nat) -> nat {
    if cap == 0 {
        1
    } else {
        2 * cap
    }
}

/// A buffer of `n` values of type `T` has a layout: its size in bytes does
/// not exceed `isize::MAX` (the size of `T` being a multiple of its alignment,
/// no rounding is involved).
pub open spec fn fits_layout<T>(n: nat) -> bool {
    n * size_of::<T>() <= isize::MAX
}

/// Growing a buffer of a non-zero-sized type whose grown layout fits never
/// overflows a `usize`.
pub proof fn lemma_grown_cap_bounded<T>(cap: nat)
    requires
        size_of::<T>() > 0,
        fits_layout::<T>(grown_cap(cap)),
    ensures
        grown_cap(cap) <= isize::MAX,
        cap <= grown_cap(cap),
{
    let g = grown_cap(cap);
    let s = size_of::<T>();
    assert(g <= g * s) by (nonlinear_arith)
        requires
            s >= 1,
    ;
}

} // verus!
