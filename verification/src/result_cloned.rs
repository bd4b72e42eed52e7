//! Cloning the value out of a `Result` of a mutable reference.
use vstd::prelude::*;
use crate::seahorn::any;

verus! {

/// `Result::<&mut T, E>::cloned` of core: a clone of the value referred to,
/// or the error as it is.
pub assume_specification<T: Clone, E>[ Result::<&mut T, E>::cloned ](val: Result<&mut T, E>) -> (res: Result<T, E>)
    ensures
        val is Ok ==> res is Ok && cloned::<T>(*val->Ok_0, res->Ok_0),
        val is Ok ==> *final(val->Ok_0) == *val->Ok_0,
        val is Err ==> res is Err && res->Err_0 == val->Err_0,
;

/// A positive value cloned out and doubled is larger.
pub fn entrypt() {
    let mut x: i32 = any();
    if !(x > 0) {
        return;
    }
    if !(x < i32::MAX / 2) {
        return;
    }
    let val: Result<&mut i32, i32> = Ok(&mut x);
    let cloned: Result<i32, i32> = val.cloned();
    let result: i32 = cloned.unwrap() * 2;
    assert(result > x);
}

} // verus!
