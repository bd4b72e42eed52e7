//! Falling back to a second `Option` with `or`.
use vstd::prelude::*;
use crate::seahorn::any;

verus! {

/// `Option::or` of core: the option itself when it holds a value, else
/// `optb`.
pub assume_specification<T>[ Option::<T>::or ](option: Option<T>, optb: Option<T>) -> (res: Option<T>)
    ensures
        res == (if option is Some {
            option
        } else {
            optb
        }),
;

/// An even number is kept, an odd one falls back to the second value.
pub fn entrypt() {
    let v: i32 = any();
    let w: i32 = any();
    let val1: Option<i32> = if (v & 1) == 1 {
        None
    } else {
        Some(v)
    };
    let val2: Option<i32> = Some(w);
    let result: i32 = val1.or(val2).unwrap();
    assert((v & 1) == 0 || (v & 1) == 1) by (bit_vector);
    if (v & 1) == 0 {
        assert(result == v);
    } else {
        assert(result == w);
    }
}

} // verus!
