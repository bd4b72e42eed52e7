//! Bumping an unknown bounded number by two, inlined and not.
use vstd::prelude::*;
use crate::seahorn::any;

verus! {

/// `v` plus two, added one at a time through a mutable reference to it.
pub fn add_two_through_reference(v: u32) -> (r: u32)
    requires
        v <= u32::MAX - 2,
    ensures
        r == v + 2,
{
    let mut v: u32 = v;
    let original: u32 = v;
    let n: &mut u32 = &mut v;
    *n = *n + 1;
    *n = *n + 1;
    assert(v == original + 2);
    v
}

/// Some number up to `x`, plus two: between 2 and `x + 2`.
pub fn f1(x: u32) -> (r: u32)
    requires
        x <= u32::MAX - 2,
    ensures
        2 <= r <= x + 2,
{
    // some value no larger than `x`
    let drawn: u32 = any();
    let v: u32 = drawn % (x + 1);
    add_two_through_reference(v)
}

/// Some number up to `x`, plus two: between 2 and `x + 2`.
pub fn f2(x: u32) -> (r: u32)
    requires
        x <= u32::MAX - 2,
    ensures
        2 <= r <= x + 2,
{
    // some value no larger than `x`
    let drawn: u32 = any();
    let v: u32 = drawn % (x + 1);
    add_two_through_reference(v)
}

/// A number up to 10 bumped by two stays within 12, one up to 20 within 22.
pub fn string_compare() {
    let x1: u32 = 10;
    let x2: u32 = 20;
    let y1: u32 = f1(x1);
    let y2: u32 = f2(x2);
    assert(y1 <= 12);
    assert(y2 <= 23);
}

/// Runs the harness.
pub fn entrypt() {
    string_compare();
}

} // verus!
