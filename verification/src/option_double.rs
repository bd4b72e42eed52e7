//! Doubling even numbers into an `Option`.
use vstd::prelude::*;
use crate::seahorn::any;

verus! {

/// Twice `num` when it is even, nothing when it is odd.
pub fn double_if_even(num: i32) -> (r: Option<i32>)
    requires
        (num & 1) == 0 ==> i32::MIN <= 2 * num <= i32::MAX,
    ensures
        r == if (num & 1) == 0 {
            Some((2 * num) as i32)
        } else {
            None::<i32>
        },
        r is Some <==> num % 2 == 0,
        r matches Some(m) ==> m == num + num,
{
    assert((num & 1) == 0 <==> num % 2 == 0) by (bit_vector);
    if (num & 1) == 0 {
        Some(2 * num)
    } else {
        None
    }
}

/// An even positive number doubles to something larger; an odd one gives
/// nothing, read as 0.
pub fn entrypt() {
    let v: i32 = any();
    if !(v > 0) {
        return;
    }
    if !(v < i32::MAX / 2) {
        return;
    }
    let result: i32 = match double_if_even(v) {
        Some(v) => v,
        None => 0,
    };
    assert((v & 1) == 0 || (v & 1) == 1) by (bit_vector);
    if (v & 1) == 0 {
        assert(result > v);
    } else {
        assert(result == 0);
    }
}

} // verus!
