//! Summing the even values of a `Vec`.
use vstd::prelude::*;
use crate::seahorn::any;

verus! {

/// The sum of the even values among three gives an even number.
pub fn entrypt() {
    let x: i32 = any();
    let y: i32 = any();
    let z: i32 = any();
    let values: Vec<i32> = vec![x, y, z];
    let mut result: i32 = 0;
    let mut i: usize = 0;
    assert((0i32 & 1) == 0) by (bit_vector);
    while i < values.len()
        invariant
            i <= values@.len(),
            (result & 1) == 0,
        decreases values@.len() - i,
    {
        let value: i32 = values[i];
        if (value & 1) == 0 {
            // a sum beyond the range of `i32` overflows
            match result.checked_add(value) {
                Some(sum) => {
                    assert((sum & 1) == 0) by (bit_vector)
                        requires
                            (result & 1) == 0,
                            (value & 1) == 0,
                            sum == result + value,
                    ;
                    result = sum;
                },
                None => {
                    return;
                },
            }
        }
        i = i + 1;
    }
    assert((result & 1) == 0);
}

} // verus!
