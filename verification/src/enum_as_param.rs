//! An enum passed by value and matched on.
use vstd::prelude::*;
use crate::seahorn::any;

verus! {

/// Three named constants.
pub enum CEnum {
    KValOne,
    KValTwo,
    KValThree,
}

/// The number that stands for each constant: 101, 102 and 103.
pub fn enum_param_test(param: CEnum) -> (r: i32)
    ensures
        r == match param {
            CEnum::KValOne => 101i32,
            CEnum::KValTwo => 102i32,
            CEnum::KValThree => 103i32,
        },
{
    match param {
        CEnum::KValOne => 101,
        CEnum::KValTwo => 102,
        CEnum::KValThree => 103,
    }
}

/// The second constant stands for 102.
pub fn entrypt() {
    let v: i32 = any();
    if !(v == 102) {
        return;
    }
    let result: i32 = enum_param_test(CEnum::KValTwo);
    assert(result == v);
}

} // verus!
