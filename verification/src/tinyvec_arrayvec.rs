//! Harnesses of tinyvec's `ArrayVec`: each operation, checked on the length
//! and the capacity that result, and on the values where the harness reads
//! them.
use vstd::prelude::*;
use crate::seahorn::any;
use crate::smallvec_ops::is_even;
use crate::smallvec_bound4::{alternates, lemma_filter_push, lemma_filter_none, lemma_filter_all_pass};
use crate::tinyvec_ops::{
    ArrayVec2, ArrayVec4, ArrayVec8, av2_items, av4_items, av8_items, av2_new, av4_new, av8_new,
    av2_len, av4_len, av8_len, av2_capacity, av4_capacity, av8_capacity, av2_push, av4_push,
    av8_push, av4_pop, av4_remove, av8_truncate, av4_append, av4_try_append, av4_drain_collect,
    av4_extend_from_slice, av4_fill_counting, av4_get, av4_insert, av4_try_insert, av4_try_push,
    av4_resize, av4_resize_with_any, av4_set_len, av4_splice_collect, av4_split_off,
    av4_swap_remove, av8_clear, av8_from_array_empty, av8_from_array_len,
    av8_try_from_array_len, av2_retain_even, av2_retain_odd,
};

verus! {

/// `len` pushes of arbitrary values onto an empty `ArrayVec<[u32; 4]>`.
fn fill_any4(v: &mut ArrayVec4, len: usize)
    requires
        av4_items(*old(v)).len() == 0,
        len <= 4,
    ensures
        av4_items(*final(v)).len() == len,
{
    let mut i: usize = 0;
    while i < len
        invariant
            i <= len <= 4,
            av4_items(*v).len() == i,
        decreases len - i,
    {
        av4_push(v, any());
        i = i + 1;
    }
}

/// `len` pushes of arbitrary values onto an empty `ArrayVec<[u32; 8]>`.
fn fill_any8(v: &mut ArrayVec8, len: usize)
    requires
        av8_items(*old(v)).len() == 0,
        len <= 8,
    ensures
        av8_items(*final(v)).len() == len,
{
    let mut i: usize = 0;
    while i < len
        invariant
            i <= len <= 8,
            av8_items(*v).len() == i,
        decreases len - i,
    {
        av8_push(v, any());
        i = i + 1;
    }
}

/// `len` pushes of arbitrary values whose parity follows their position,
/// counted from 1: odd, even, odd, ...; `false` as soon as a drawn value has
/// the wrong parity, which is then not pushed.
fn fill_alternating2(v: &mut ArrayVec2, len: usize) -> (ok: bool)
    requires
        av2_items(*old(v)).len() == 0,
        len <= 2,
    ensures
        len == 0 ==> ok,
        ok ==> av2_items(*final(v)).len() == len,
        !ok ==> av2_items(*final(v)).len() < len,
        alternates(av2_items(*final(v))),
        ok ==> av2_items(*final(v)).filter(|x: u32| is_even(x)).len() == len / 2,
{
    let mut i: usize = 1;
    while i <= len
        invariant
            1 <= i <= len + 1,
            len <= 2,
            av2_items(*v).len() == i - 1,
            av2_items(*v).filter(|x: u32| is_even(x)).len() == (i - 1) / 2,
            alternates(av2_items(*v)),
        decreases len + 1 - i,
    {
        let val: u32 = any();
        assert((i & 1) == 0 <==> i % 2 == 0) by (bit_vector);
        assert((val & 1) == 0 <==> val % 2 == 0) by (bit_vector);
        assert((val & 1) == 1 <==> val % 2 == 1) by (bit_vector);
        if (i & 1) == 0 {
            if !((val & 1) == 0) {
                return false;
            }
        } else {
            if !((val & 1) == 1) {
                return false;
            }
        }
        let ghost before = av2_items(*v);
        av2_push(v, val);
        proof {
            lemma_filter_push(before, val, |x: u32| is_even(x));
            assert(is_even(val) <==> (i - 1) % 2 == 1);
            assert forall|j: int| 0 <= j < av2_items(*v).len() implies (is_even(#[trigger] av2_items(*v)[j]) <==> j % 2 == 1) by {
                if j < before.len() {
                    assert(av2_items(*v)[j] == before[j]);
                }
            }
        }
        i = i + 1;
    }
    true
}

/// Appending moves every value of the second vector to the first.
pub fn test_append() {
    let mut v1: ArrayVec4 = av4_new();
    let mut v2: ArrayVec4 = av4_new();
    let len1: usize = any();
    if !(len1 <= 4) {
        return;
    }
    let len2: usize = any();
    if !(len2 <= 4) {
        return;
    }
    fill_any4(&mut v1, len1);
    let length: usize = av4_len(&v1);
    assert(length == len1);
    fill_any4(&mut v2, len2);
    let length: usize = av4_len(&v2);
    assert(length == len2);
    if !(len1 <= 4 - len2) {
        // appending beyond the capacity panics: nothing is left to check
        assert(av4_items(v1).len() + av4_items(v2).len() > 4);
        return;
    }
    av4_append(&mut v1, &mut v2);
    let length: usize = av4_len(&v1);
    assert(length == len1 + len2);
    let length: usize = av4_len(&v2);
    assert(length == 0);
}

/// Clearing empties the vector and keeps its capacity.
pub fn test_clear() {
    let mut v: ArrayVec8 = av8_new();
    let len: usize = any();
    if !(len <= 8) {
        return;
    }
    fill_any8(&mut v, len);
    av8_clear(&mut v);
    let length: usize = av8_len(&v);
    assert(length == 0);
    let capacity: usize = av8_capacity(&v);
    assert(capacity == 8);
}

/// Draining from a point to the end takes out the values past it; draining
/// again takes out nothing.
pub fn test_drain() {
    let mut v1: ArrayVec4 = av4_new();
    let len: usize = any();
    if !(len >= 2 && len <= 4) {
        return;
    }
    fill_any4(&mut v1, len);
    let drain_point: usize = any();
    if !(drain_point >= 1 && drain_point < len) {
        return;
    }
    let end: usize = av4_len(&v1);
    let v2: ArrayVec4 = av4_drain_collect(&mut v1, drain_point, end);
    let length: usize = av4_len(&v1);
    assert(length == drain_point);
    let length: usize = av4_len(&v2);
    assert(length == len - drain_point);
    let end: usize = av4_len(&v1);
    let v3: ArrayVec4 = av4_drain_collect(&mut v1, drain_point, end);
    let length: usize = av4_len(&v1);
    assert(length == drain_point);
    let length: usize = av4_len(&v3);
    assert(length == 0);
}

/// Extending by another vector's values adds up the lengths.
pub fn test_extend_from_slice() {
    let mut v1: ArrayVec4 = av4_new();
    let mut v2: ArrayVec4 = av4_new();
    let len1: usize = any();
    let len2: usize = any();
    if !(len1 <= 4) {
        return;
    }
    if !(len2 <= 4) {
        return;
    }
    fill_any4(&mut v1, len1);
    fill_any4(&mut v2, len2);
    if !(len1 <= 4 - len2) {
        // extending beyond the capacity panics: nothing is left to check
        assert(av4_items(v1).len() + av4_items(v2).len() > 4);
        return;
    }
    av4_extend_from_slice(&mut v1, &v2);
    let length: usize = av4_len(&v1);
    assert(length == len1 + len2);
    let length: usize = av4_len(&v2);
    assert(length == len2);
}

/// Filling from `0..len` holds 0, 1, ..., `len - 1`.
pub fn test_fill() {
    let len: usize = any();
    if !(len <= 4) {
        return;
    }
    let mut v: ArrayVec4 = av4_new();
    av4_fill_counting(&mut v, len as u32);
    let length: usize = av4_len(&v);
    assert(length == len);
    let capacity: usize = av4_capacity(&v);
    assert(capacity == 4);
    for n in 0..len
        invariant
            len <= 4,
            av4_items(v) == Seq::new(len as nat, |k: int| k as u32),
    {
        let value: u32 = av4_get(&v, n);
        assert(n as u32 == value);
    }
}

/// A vector over an array, made empty, has no values.
pub fn test_from_array_empty() {
    let v: ArrayVec8 = av8_from_array_empty([0; 8]);
    let length: usize = av8_len(&v);
    assert(length == 0);
    let x: u32 = any();
    if !(x < u32::MAX / 2) {
        return;
    }
    let result: u32 = x * 2;
    assert(result >= x);
}

/// A vector over an array, with a length within it, has that length.
pub fn test_from_array_len() {
    let len: usize = any();
    if len <= 8 {
        let v: ArrayVec8 = av8_from_array_len([0; 8], len);
        let length: usize = av8_len(&v);
        assert(length == len);
    } else {
        // a length beyond the array panics: nothing is left to check
        assert(len > 8);
        return;
    }
    let x: u32 = any();
    if !(x < u32::MAX / 2) {
        return;
    }
    let result: u32 = x * 2;
    assert(result >= x);
}

/// Inserting within the values adds one; inserting beyond them, or into a
/// full vector, panics.
pub fn test_insert() {
    let mut v: ArrayVec4 = av4_new();
    let len: usize = any();
    if !(len > 0 && len <= 3) {
        return;
    }
    fill_any4(&mut v, len);
    let insert_point: usize = any();
    if !(insert_point < len) {
        return;
    }
    av4_insert(&mut v, insert_point, any());
    let length: usize = av4_len(&v);
    assert(length == len + 1);
    let capacity: usize = av4_capacity(&v);
    assert(capacity == 4);
    if len < 2 {
        let insert_point2: usize = any();
        if !(insert_point2 > len + 1) {
            return;
        }
        // inserting beyond the length panics: nothing is left to check
        assert(insert_point2 > av4_items(v).len());
    } else {
        if len == 2 {
            av4_push(&mut v, any());
        }
        let insert_point2: usize = any();
        if !(insert_point2 <= 3) {
            return;
        }
        // inserting into a full vector panics: nothing is left to check
        assert(av4_items(v).len() == 4);
    }
}

/// A new vector is empty, with the array's capacity.
pub fn test_new() {
    let v: ArrayVec4 = av4_new();
    let length: usize = av4_len(&v);
    assert(length == 0);
    let capacity: usize = av4_capacity(&v);
    assert(capacity == 4);
    let x: u32 = any();
    if !(x < u32::MAX / 2) {
        return;
    }
    let result: u32 = x * 2;
    assert(result >= x);
}

/// Popping gives a value as long as there is one, then `None`.
pub fn test_pop() {
    let mut v: ArrayVec4 = av4_new();
    let len: usize = any();
    if !(len <= 4) {
        return;
    }
    fill_any4(&mut v, len);
    for i in 0..len
        invariant
            len <= 4,
            av4_items(v).len() == len - i,
    {
        let result: Option<u32> = av4_pop(&mut v);
        assert(result.is_some());
        let length: usize = av4_len(&v);
        assert(length == len - i - 1);
    }
    let result: Option<u32> = av4_pop(&mut v);
    assert(result.is_none());
}

/// Pushing up to the capacity adds one value each time; one more panics.
pub fn test_push() {
    let mut v: ArrayVec4 = av4_new();
    let len: usize = any();
    if !(len <= 4) {
        return;
    }
    for i in 0..len
        invariant
            len <= 4,
            av4_items(v).len() == i,
    {
        av4_push(&mut v, any());
        let length: usize = av4_len(&v);
        assert(length == i + 1);
    }
    let length: usize = av4_len(&v);
    assert(length == len);
    let capacity: usize = av4_capacity(&v);
    assert(capacity == 4);
    // when `len` is the capacity, one more push panics: nothing is left to check
    if len == 4 {
        assert(av4_items(v).len() == 4);
    }
}

/// Removing within the values takes one out each time; removing from an
/// empty vector panics.
pub fn test_remove() {
    let mut v: ArrayVec4 = av4_new();
    let len: usize = any();
    if !(2 <= len && len <= 4) {
        return;
    }
    fill_any4(&mut v, len);
    let remove_point1: usize = any();
    if !(remove_point1 < len) {
        return;
    }
    av4_remove(&mut v, remove_point1);
    let length: usize = av4_len(&v);
    assert(length == len - 1);
    let capacity: usize = av4_capacity(&v);
    assert(capacity == 4);
    let remove_point2: usize = any();
    if !(remove_point2 < len) {
        return;
    }
    if !(remove_point2 < len - 1) {
        // removing at the old last index, now past the end, panics: nothing is left to check
        assert(remove_point2 >= av4_items(v).len());
        return;
    }
    av4_remove(&mut v, remove_point2);
    let length: usize = av4_len(&v);
    assert(length == len - 2);
    let capacity: usize = av4_capacity(&v);
    assert(capacity == 4);
    for i in 0..len - 2
        invariant
            2 <= len <= 4,
            av4_items(v).len() == len - 2 - i,
    {
        av4_remove(&mut v, 0);
        let length: usize = av4_len(&v);
        assert(length == len - 3 - i);
    }
    // the vector is empty, and removing from it panics: nothing is left to check
    assert(av4_items(v).len() == 0);
}

/// Resizing sets the length; resizing beyond the capacity panics.
pub fn test_resize() {
    let mut v: ArrayVec4 = av4_new();
    let len: usize = any();
    if !(len <= 4) {
        return;
    }
    fill_any4(&mut v, len);
    let resize_point: usize = any();
    if !(resize_point <= 4) {
        return;
    }
    av4_resize(&mut v, resize_point, any());
    let length: usize = av4_len(&v);
    assert(length == resize_point);
    let resize_point2: usize = any();
    if !(resize_point2 <= 4) {
        // resizing beyond the capacity panics: nothing is left to check
        assert(resize_point2 > 4);
        return;
    }
    av4_resize(&mut v, resize_point2, any());
    let length: usize = av4_len(&v);
    assert(length == resize_point2);
    let resize_point3: usize = any();
    if !(resize_point3 > 4) {
        return;
    }
    // a third resize, beyond the capacity, panics: nothing is left to check
}

/// Resizing with drawn values sets the length; resizing beyond the capacity
/// panics.
pub fn test_resize_with() {
    let mut v: ArrayVec4 = av4_new();
    let len: usize = any();
    if !(len <= 4) {
        return;
    }
    fill_any4(&mut v, len);
    let resize_point: usize = any();
    if !(resize_point <= 4) {
        return;
    }
    av4_resize_with_any(&mut v, resize_point);
    let length: usize = av4_len(&v);
    assert(length == resize_point);
    let resize_point2: usize = any();
    if !(resize_point2 <= 4) {
        // resizing beyond the capacity panics: nothing is left to check
        assert(resize_point2 > 4);
        return;
    }
    av4_resize_with_any(&mut v, resize_point2);
    let length: usize = av4_len(&v);
    assert(length == resize_point2);
    let resize_point3: usize = any();
    if !(resize_point3 > 4) {
        return;
    }
    // a third resize, beyond the capacity, panics: nothing is left to check
}

/// Of alternately odd and even values, keeping the even ones keeps half,
/// and keeping the odd ones of those keeps none.
pub fn test_retain() {
    let mut v: ArrayVec2 = av2_new();
    let len: usize = any();
    if !(len <= 2) {
        return;
    }
    if !fill_alternating2(&mut v, len) {
        return;
    }
    av2_retain_even(&mut v);
    let length: usize = av2_len(&v);
    assert(length == len / 2);
    let capacity: usize = av2_capacity(&v);
    assert(capacity == 2);
    proof {
        lemma_filter_all_pass(av2_items(v), |x: u32| is_even(x));
        lemma_filter_none(av2_items(v), |x: u32| !is_even(x));
    }
    av2_retain_odd(&mut v);
    let length: usize = av2_len(&v);
    assert(length == 0);
    let capacity: usize = av2_capacity(&v);
    assert(capacity == 2);
}

/// Setting the length within the capacity gives that length.
pub fn test_set_len() {
    let mut v: ArrayVec4 = av4_new();
    let len: usize = any();
    if !(len <= 4) {
        // a length beyond the capacity panics: nothing is left to check
        assert(len > 4);
        return;
    }
    av4_set_len(&mut v, len);
    let length: usize = av4_len(&v);
    assert(length == len);
    let capacity: usize = av4_capacity(&v);
    assert(capacity == 4);
}

/// Splicing as many values in as are taken out keeps the length.
pub fn test_splice() {
    let mut v1: ArrayVec4 = av4_new();
    let len: usize = any();
    if !(len <= 4) {
        return;
    }
    fill_any4(&mut v1, len);
    let splice_point: usize = any();
    if !(splice_point < len) {
        return;
    }
    let val: u32 = any();
    if !(val <= u32::MAX - len as u32) {
        // the end of the replacement range overflows: nothing is left to check
        assert(val + len > u32::MAX);
        return;
    }
    let end: usize = av4_len(&v1);
    let to: u32 = val + len as u32 - splice_point as u32;
    let v2: ArrayVec4 = av4_splice_collect(&mut v1, splice_point, end, val, to);
    let length: usize = av4_len(&v1);
    assert(length == len);
    let length: usize = av4_len(&v2);
    assert(length == len - splice_point);
    let splice_point2: usize = any();
    if !(splice_point2 < len) {
        return;
    }
    let val: u32 = any();
    let v3: ArrayVec4 = av4_splice_collect(&mut v1, splice_point2, splice_point2, val, val);
    let length: usize = av4_len(&v1);
    assert(length == len);
    let length: usize = av4_len(&v3);
    assert(length == 0);
}

/// Splitting within the values keeps those before the point and returns the
/// rest.
pub fn test_split_off() {
    let mut v: ArrayVec4 = av4_new();
    let len: usize = any();
    if !(len <= 4) {
        return;
    }
    fill_any4(&mut v, len);
    let split_point: usize = any();
    if !(split_point <= len) {
        // splitting beyond the length panics: nothing is left to check
        assert(split_point > av4_items(v).len());
        return;
    }
    let v2: ArrayVec4 = av4_split_off(&mut v, split_point);
    let length: usize = av4_len(&v);
    assert(length == split_point);
    let length: usize = av4_len(&v2);
    assert(length == len - split_point);
}

/// Swap-removing within the values takes one out each time; from an empty
/// vector it panics.
pub fn test_swap_remove() {
    let mut v: ArrayVec4 = av4_new();
    let len: usize = any();
    if !(2 <= len && len <= 4) {
        return;
    }
    fill_any4(&mut v, len);
    let remove_point1: usize = any();
    if !(remove_point1 < len) {
        return;
    }
    av4_swap_remove(&mut v, remove_point1);
    let length: usize = av4_len(&v);
    assert(length == len - 1);
    let capacity: usize = av4_capacity(&v);
    assert(capacity == 4);
    let remove_point2: usize = any();
    if !(remove_point2 < len) {
        return;
    }
    if !(remove_point2 < len - 1) {
        // removing at the old last index, now past the end, panics: nothing is left to check
        assert(remove_point2 >= av4_items(v).len());
        return;
    }
    av4_swap_remove(&mut v, remove_point2);
    let length: usize = av4_len(&v);
    assert(length == len - 2);
    let capacity: usize = av4_capacity(&v);
    assert(capacity == 4);
    for i in 0..len - 2
        invariant
            2 <= len <= 4,
            av4_items(v).len() == len - 2 - i,
    {
        av4_swap_remove(&mut v, 0);
        let length: usize = av4_len(&v);
        assert(length == len - 3 - i);
    }
    // the vector is empty, and removing from it panics: nothing is left to check
    assert(av4_items(v).len() == 0);
}

/// Truncating shortens to the point given, and never lengthens.
pub fn test_truncate() {
    let mut v: ArrayVec8 = av8_new();
    let len: usize = any();
    if !(len <= 8) {
        return;
    }
    fill_any8(&mut v, len);
    let truncate_point: usize = any();
    if !(truncate_point <= len) {
        return;
    }
    av8_truncate(&mut v, truncate_point);
    let length: usize = av8_len(&v);
    assert(length == truncate_point);
    let capacity: usize = av8_capacity(&v);
    assert(capacity == 8);
    let truncate_point2: usize = any();
    if !(truncate_point2 > truncate_point) {
        return;
    }
    av8_truncate(&mut v, truncate_point2);
    let length: usize = av8_len(&v);
    assert(length == truncate_point);
    let capacity: usize = av8_capacity(&v);
    assert(capacity == 8);
}

/// Trying to append moves the values when they fit, and hands the second
/// vector back untouched when they do not.
pub fn test_try_append() {
    let mut v1: ArrayVec4 = av4_new();
    let mut v2: ArrayVec4 = av4_new();
    let len1: usize = any();
    if !(len1 <= 4) {
        return;
    }
    let len2: usize = any();
    if !(len2 <= 4) {
        return;
    }
    fill_any4(&mut v1, len1);
    let length: usize = av4_len(&v1);
    assert(length == len1);
    fill_any4(&mut v2, len2);
    let length: usize = av4_len(&v2);
    assert(length == len2);
    let refused: bool = av4_try_append(&mut v1, &mut v2);
    if len1 + len2 <= 4 {
        assert(!refused);
        let length: usize = av4_len(&v1);
        assert(length == len1 + len2);
        let length: usize = av4_len(&v2);
        assert(length == 0);
    } else {
        assert(refused);
        let length: usize = av4_len(&v1);
        assert(length == len1);
        let length: usize = av4_len(&v2);
        assert(length == len2);
    }
}

/// Trying a length within the array succeeds with it; beyond, it fails.
pub fn test_try_from_array_len() {
    let len: usize = any();
    let v: Result<ArrayVec8, [u32; 8]> = av8_try_from_array_len([0; 8], len);
    if len <= 8 {
        assert(v.is_ok());
        match v {
            Ok(av) => {
                let length: usize = av8_len(&av);
                assert(length == len);
            },
            Err(_) => {},
        }
    } else {
        assert(v.is_err());
    }
    let x: u32 = any();
    if !(x < u32::MAX / 2) {
        return;
    }
    let result: u32 = x * 2;
    assert(result >= x);
}

/// Trying to insert within the values succeeds unless the vector is full,
/// when the value comes back.
pub fn test_try_insert() {
    let mut v: ArrayVec4 = av4_new();
    let len: usize = any();
    if !(len <= 4) {
        return;
    }
    fill_any4(&mut v, len);
    let insert_point: usize = any();
    if !(insert_point <= len) {
        // inserting beyond the length panics: nothing is left to check
        assert(insert_point > av4_items(v).len());
        return;
    }
    let result: Option<u32> = av4_try_insert(&mut v, insert_point, any());
    if len == 4 {
        assert(result.is_some());
        let length: usize = av4_len(&v);
        assert(length == 4);
        let capacity: usize = av4_capacity(&v);
        assert(capacity == 4);
    } else {
        assert(result.is_none());
        let length: usize = av4_len(&v);
        assert(length == len + 1);
        let capacity: usize = av4_capacity(&v);
        assert(capacity == 4);
    }
}

/// Trying to push succeeds up to the capacity and then hands the value back.
pub fn test_try_push() {
    let mut v: ArrayVec4 = av4_new();
    let len: usize = any();
    if !(len <= 4) {
        return;
    }
    for i in 0..len
        invariant
            len <= 4,
            av4_items(v).len() == i,
    {
        let result: Option<u32> = av4_try_push(&mut v, any());
        assert(result.is_none());
        let length: usize = av4_len(&v);
        assert(length == i + 1);
    }
    let length: usize = av4_len(&v);
    let capacity: usize = av4_capacity(&v);
    if length == capacity {
        let result: Option<u32> = av4_try_push(&mut v, any());
        assert(result.is_some());
    }
}

/// Runs one of the harnesses, chosen arbitrarily.
pub fn entrypt() {
    let v: u8 = any();
    match v {
        0 => test_append(),
        1 => test_clear(),
        2 => test_drain(),
        3 => test_extend_from_slice(),
        4 => test_fill(),
        5 => test_from_array_empty(),
        6 => test_from_array_len(),
        8 => test_insert(),
        9 => test_new(),
        10 => test_pop(),
        11 => test_push(),
        12 => test_remove(),
        13 => test_resize(),
        14 => test_resize_with(),
        15 => test_retain(),
        16 => test_set_len(),
        17 => test_splice(),
        19 => test_split_off(),
        20 => test_swap_remove(),
        21 => test_truncate(),
        22 => test_try_append(),
        23 => test_try_from_array_len(),
        24 => test_try_insert(),
        25 => test_try_push(),
        _ => (),
    }
}

} // verus!
