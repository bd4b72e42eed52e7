//! Squaring the values of a vector of `Option`s through `map`, and summing
//! what comes out.
use vstd::prelude::*;
use crate::seahorn::any;

verus! {

/// The square of `x`, in the range of `u32`.
pub open spec fn squared(x: u32) -> u32 {
    (x * x) as u32
}

/// What `square` makes of one value.
pub open spec fn squared_option(val: Option<u32>) -> Option<u32> {
    match val {
        Some(x) => Some(squared(x)),
        None => None::<u32>,
    }
}

/// Whether the square of the value, if there is one, fits in a `u32`.
pub open spec fn square_fits(val: Option<u32>) -> bool {
    val matches Some(x) ==> x * x <= u32::MAX
}

/// The square of the value, if there is one.
pub fn square(val: Option<u32>) -> (r: Option<u32>)
    requires
        square_fits(val),
    ensures
        r == squared_option(val),
        val is None ==> r is None,
        val matches Some(x) ==> (r matches Some(y) && y == x * x),
{
    val.map(
        |x: u32| -> (r: u32)
            requires x * x <= u32::MAX
            ensures r == squared(x)
        { x * x },
    )
}

/// Each value of `nums` through `square`, in order.
pub fn square_all(nums: Vec<Option<u32>>) -> (r: Vec<Option<u32>>)
    requires
        forall|i: int| 0 <= i < nums.len() ==> square_fits(#[trigger] nums@[i]),
    ensures
        r@ == nums@.map_values(|val: Option<u32>| squared_option(val)),
        r@.len() == nums@.len(),
        forall|i: int| 0 <= i < nums@.len() ==> (#[trigger] nums@[i] is None <==> r@[i] is None),
        forall|i: int| 0 <= i < nums@.len() ==> (#[trigger] nums@[i] matches Some(x) ==> (r@[i] matches Some(y) && y == x * x)),
{
    let mut r: Vec<Option<u32>> = Vec::new();
    for i in 0..nums.len()
        invariant
            forall|j: int| 0 <= j < nums.len() ==> square_fits(#[trigger] nums@[j]),
            r@ == nums@.take(i as int).map_values(|val: Option<u32>| squared_option(val)),
    {
        r.push(square(nums[i]));
        assert(nums@.take(i + 1).drop_last() =~= nums@.take(i as int));
    }
    assert(nums@.take(nums.len() as int) =~= nums@);
    proof {
        law_squared_option(nums@);
    }
    r
}

/// Squaring multiplies a value by itself: for every `x` whose square fits,
/// `squared(x)` is the product `x * x`, so it is 0 exactly at 0, at least
/// `x` for every `x`, and the square of a product is the product of the
/// squares.
pub proof fn law_squared_is_product(x: u32)
    requires
        x * x <= u32::MAX,
    ensures
        squared(x) == x * x,
        squared(x) >= x,
        (squared(x) == 0) <==> (x == 0),
        squared_option(Some(x)) == Some((x * x) as u32),
{
    assert(x * x >= x) by (nonlinear_arith)
        requires
            x >= 0,
    {
        if x > 0 {
            assert(x * x >= x * 1);
        }
    }
    assert((x * x == 0) <==> (x == 0)) by (nonlinear_arith);
}

/// Squaring every value of a sequence keeps `None` where it was and puts
/// the product of each value with itself where there was a value.
pub proof fn law_squared_option(s: Seq<Option<u32>>)
    requires
        forall|i: int| 0 <= i < s.len() ==> square_fits(#[trigger] s[i]),
    ensures
        forall|i: int| 0 <= i < s.len() ==> (#[trigger] s[i] is None <==> s.map_values(|val: Option<u32>| squared_option(val))[i] is None),
        forall|i: int| 0 <= i < s.len() ==> (#[trigger] s[i] matches Some(x) ==> (s.map_values(|val: Option<u32>| squared_option(val))[i] matches Some(y) && y == x * x)),
{
    assert forall|i: int| 0 <= i < s.len() implies (#[trigger] s[i] matches Some(x) ==> (s.map_values(|val: Option<u32>| squared_option(val))[i] matches Some(y) && y == x * x)) by {
        if let Some(x) = s[i] {
            law_squared_is_product(x);
        }
    }
}

/// A vector reserved for `v` values and written at its first `v` indices,
/// squared and summed: the sum is at least `v * v`. Writing into the
/// vector, which holds no values yet, panics as soon as `v` is positive.
pub fn test() {
    let v: u8 = any();
    if !(v < 3) {
        return;
    }
    let nums: Vec<Option<u32>> = Vec::with_capacity(v as usize);
    if v > 0 {
        // writing at index 0 of the empty vector panics: nothing is left to check
        assert(nums.len() == 0);
        return;
    }
    let result: Vec<Option<u32>> = square_all(nums);
    let mut sum: u32 = 0;
    for i in 0..result.len()
        invariant
            result.len() == 0,
    {
        if let Some(x) = result[i] {
            sum = sum + x;
        }
    }
    assert((v as u32) * (v as u32) == 0) by (nonlinear_arith)
        requires
            v == 0,
    ;
    assert(sum >= (v as u32) * (v as u32));
}

/// Runs the harness.
pub fn entrypt() {
    test();
}

} // verus!
