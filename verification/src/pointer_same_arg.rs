//! Writing through two mutable references and reading back the first.
use vstd::prelude::*;

verus! {

/// Stores `x_value` in `x` and `y_value` in `y`, and returns what `x`
/// holds: `x_value`, the two references being distinct.
pub fn example1(x: &mut i32, y: &mut i32, x_value: i32, y_value: i32) -> (r: i32)
    ensures
        *final(x) == x_value,
        *final(y) == y_value,
        r == x_value,
{
    *x = x_value;
    *y = y_value;
    *x
}

} // verus!
