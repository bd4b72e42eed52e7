//! Doubling the value of an `Option` through `and_then`.
use vstd::prelude::*;
use crate::seahorn::any;

verus! {

/// Twice `n`, in the range of `i32`.
pub open spec fn doubled(n: i32) -> i32 {
    (2 * n) as i32
}

/// Twice `n` is in the range of `i32`.
pub open spec fn doubles_in_range(n: i32) -> bool {
    i32::MIN <= 2 * n <= i32::MAX
}

/// Twice the value, if there is one.
pub fn double(x: Option<i32>) -> (r: Option<i32>)
    requires
        x matches Some(n) ==> doubles_in_range(n),
    ensures
        r == match x {
            Some(n) => Some(doubled(n)),
            None => None::<i32>,
        },
        x is None ==> r is None,
        x matches Some(n) ==> (r matches Some(m) && m == 2 * n),
{
    x.and_then(
        |num: i32| -> (r: Option<i32>)
            requires doubles_in_range(num)
            ensures r == Some(doubled(num))
        { Some(num * 2) },
    )
}

/// Doubling adds a number to itself: for every `n` whose double is in the
/// range of `i32`, `doubled(n)` is `n + n`, so halving it gives `n` back,
/// it keeps the sign of `n`, and it is always even.
pub proof fn law_doubled_is_twice(n: i32)
    requires
        doubles_in_range(n),
    ensures
        doubled(n) == n + n,
        doubled(n) / 2 == n,
        doubled(n) % 2 == 0,
        (doubled(n) > 0) <==> (n > 0),
        (doubled(n) < 0) <==> (n < 0),
{
}

/// An even positive number doubles to something larger; an odd one gives
/// nothing, read as 0.
pub fn entrypt() {
    let v: i32 = any();
    if !(v > 0) {
        return;
    }
    if !(v < i32::MAX / 2) {
        return;
    }
    let result: Option<i32> = if (v & 1) == 1 {
        None
    } else {
        Some(v)
    };
    let result: i32 = match double(result) {
        Some(val) => val,
        None => 0,
    };
    assert((v & 1) == 0 || (v & 1) == 1) by (bit_vector);
    if (v & 1) == 0 {
        assert(result > v);
    } else {
        assert(result == 0);
    }
}

} // verus!
