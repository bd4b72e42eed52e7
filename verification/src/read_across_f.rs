//! Reading a value before handing its reference to a closure.
use vstd::prelude::*;

verus! {

/// Reads `*x`, calls `f` once on `x`, and returns the value read before the
/// call.
pub fn example2_down(x: &i32, f: impl FnOnce(&i32)) -> (r: i32)
    requires
        call_requires(f, (x,)),
    ensures
        r == *x,
        call_ensures(f, (x,), ()),
{
    let val: i32 = *x;
    f(x);
    val
}

} // verus!
