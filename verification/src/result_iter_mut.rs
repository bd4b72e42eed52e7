//! Writing into the value of a `Result` through a mutable reference to it.
use vstd::prelude::*;
use crate::seahorn::any;

verus! {

/// `input` when it is not negative, else twice `input`: the value travels
/// through `Ok` and `Err` and is written back through a reference.
pub fn iter_mut(input: i32) -> (r: i32)
    requires
        input >= i32::MIN / 2,
    ensures
        r == if input >= 0 {
            input as int
        } else {
            2 * input
        },
{
    if input >= 0 {
        let mut x: Result<i32, &str> = Ok(input);
        match &mut x {
            Ok(v) => *v = input,
            Err(_) => {},
        };
        let y: Result<i32, i32> = Err(x.unwrap());
        match y {
            Ok(value) => value,
            Err(err) => err,
        }
    } else {
        let y: Result<i32, i32> = Err(input);
        let mut x: Result<i32, &str> = Ok(
            match y {
                Ok(value) => value,
                Err(err) => err,
            },
        );
        match &mut x {
            Ok(v) => *v = input,
            Err(_) => {},
        };
        x.unwrap() * 2
    }
}

/// A non-negative input comes back as it is, a negative one doubled.
pub fn entrypt() {
    let x: i32 = any();
    if !(x < i32::MAX / 2) {
        return;
    }
    // twice a number below half the negative range overflows
    if !(x >= i32::MIN / 2) {
        return;
    }
    let res: i32 = iter_mut(x);
    if x >= 0 {
        assert(res == x);
    } else {
        assert(res == x * 2);
    }
}

} // verus!
