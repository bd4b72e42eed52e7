//! Copying the value out of a `Result` of a reference.
use vstd::prelude::*;
use crate::seahorn::any;

verus! {

/// `Result::<&T, E>::copied` of core: the value referred to, copied, or
/// the error as it is.
pub assume_specification<'a, T: Copy, E>[ Result::<&'a T, E>::copied ](val: Result<&'a T, E>) -> (res: Result<T, E>)
    ensures
        res == match val {
            Ok(t) => Ok::<T, E>(*t),
            Err(e) => Err::<T, E>(e),
        },
;

/// A positive value copied out and doubled is larger.
pub fn entrypt() {
    let v: i32 = any();
    if !(v > 0) {
        return;
    }
    if !(v < i32::MAX / 2) {
        return;
    }
    let x: Result<&i32, i32> = Ok(&v);
    let copied: Result<i32, i32> = x.copied();
    let result: i32 = copied.unwrap() * 2;
    assert(result > v);
}

} // verus!
