//! Reading the errors of an owned and of a borrowed `Result`.
use vstd::prelude::*;
use crate::seahorn::any;

verus! {

/// The error of an owned `Result` plus the error of a borrowed one, both
/// `v`, make twice `v`.
pub fn entrypt() {
    let v: i32 = any();
    if !(v < i32::MAX / 2) {
        return;
    }
    // twice a number below half the negative range overflows
    if !(v >= i32::MIN / 2) {
        return;
    }
    let x: Result<String, i32> = Err(v);
    let y: Result<&str, &i32> = Err(&v);
    let x_error: i32 = match x {
        Err(err) => err,
        _ => 0,
    };
    let y_error: i32 = match y {
        Err(err) => *err,
        _ => 0,
    };
    let result: i32 = x_error + y_error;
    assert(result == v * 2);
}

} // verus!
