//! Swapping a `Result` of an `Option` into an `Option` of a `Result`.
use vstd::prelude::*;
use crate::seahorn::any;

verus! {

/// `Result::<Option<T>, E>::transpose` of core: `Ok(None)` becomes `None`,
/// `Ok(Some(x))` becomes `Some(Ok(x))` and `Err(e)` becomes `Some(Err(e))`.
pub assume_specification<T, E>[ Result::<Option<T>, E>::transpose ](val: Result<Option<T>, E>) -> (res: Option<Result<T, E>>)
    ensures
        res == match val {
            Ok(None) => None::<Result<T, E>>,
            Ok(Some(x)) => Some(Ok::<T, E>(x)),
            Err(e) => Some(Err::<T, E>(e)),
        },
;

/// `v` read out of a transposed `Ok(Some(v))` and out of `Some(Ok(v))`
/// adds up to twice `v`.
pub fn entrypt() {
    let v: i32 = any();
    if !(v < i32::MAX / 2) {
        return;
    }
    // twice a number below half the negative range overflows
    if !(v >= i32::MIN / 2) {
        return;
    }
    let x: Result<Option<i32>, String> = Ok(Some(v));
    let y: Option<Result<i32, String>> = Some(Ok(v));
    let result: i32 = x.transpose().unwrap().unwrap() + y.unwrap().unwrap();
    assert(result == v * 2);
}

} // verus!
