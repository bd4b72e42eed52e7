//! Harnesses of `SmallVec<[u32; 8]>`: construction, growth, reservation,
//! insertion, truncation and removal, each checked on the length and the
//! capacity that result.
use vstd::prelude::*;
use crate::seahorn::any;
use crate::smallvec_ops::{
    SmallVec8, sv8_items, sv8_cap, sv8_new, sv8_new_const, sv8_len, sv8_capacity, sv8_push,
    sv8_pop, sv8_clear, sv8_extend_from_slice, sv8_from_buf, sv8_from_buf_and_len,
    sv8_from_const, sv8_from_elem, sv8_get, sv8_from_slice, sv8_grow, sv8_reserve,
    sv8_reserve_exact, sv8_try_reserve, sv8_try_reserve_exact, sv8_truncate, sv8_with_capacity, sv8_insert, sv8_insert_from_slice,
    lemma_pow2_ceil_bounds, lemma_pow2_ceil_upper,
};

verus! {

/// `len` pushes of arbitrary values onto an empty inline vector.
fn fill_any(v: &mut SmallVec8, len: usize)
    requires
        sv8_items(*old(v)).len() == 0,
        sv8_cap(*old(v)) == 8,
        len <= 8,
    ensures
        sv8_items(*final(v)).len() == len,
        sv8_cap(*final(v)) == 8,
{
    let mut i: usize = 0;
    while i < len
        invariant
            i <= len <= 8,
            sv8_items(*v).len() == i,
            sv8_cap(*v) == 8,
        decreases len - i,
    {
        sv8_push(v, any());
        i = i + 1;
    }
}

/// Clearing empties the vector and keeps its inline capacity.
pub fn test_clear() {
    let mut v: SmallVec8 = sv8_new();
    let len: usize = any();
    if !(len <= 8) {
        return;
    }
    fill_any(&mut v, len);
    sv8_clear(&mut v);
    let length: usize = sv8_len(&v);
    assert(length == 0);
    let capacity: usize = sv8_capacity(&v);
    assert(capacity == 8);
}

/// Extending by another vector adds up the lengths.
pub fn test_extend_from_slice() {
    let mut v1: SmallVec8 = sv8_new();
    let mut v2: SmallVec8 = sv8_new();
    let len: usize = any();
    if !(len <= 8) {
        return;
    }
    fill_any(&mut v1, len);
    let len2: usize = any();
    if !(len2 <= 8) {
        return;
    }
    fill_any(&mut v2, len2);
    proof {
        if len + len2 >= 1 {
            lemma_pow2_ceil_upper((len + len2) as nat);
        }
    }
    sv8_extend_from_slice(&mut v1, &v2);
    let length: usize = sv8_len(&v1);
    assert(length == len + len2);
    let capacity: usize = sv8_capacity(&v1);
    assert(capacity >= 8);
}

/// A vector made from a full buffer holds all of it inline.
pub fn test_from_buf() {
    let elem: u32 = any();
    let buf: [u32; 8] = [elem, elem, elem, elem, elem, elem, elem, elem];
    let v: SmallVec8 = sv8_from_buf(buf);
    let length: usize = sv8_len(&v);
    assert(length == 8);
    let capacity: usize = sv8_capacity(&v);
    assert(capacity == 8);
}

/// A vector made from a buffer and a length holds that many values inline.
pub fn test_from_buf_and_len() {
    let elem: u32 = any();
    let buf: [u32; 8] = [elem, elem, elem, elem, elem, elem, elem, elem];
    let len: usize = any();
    if !(len <= 8) {
        return;
    }
    let v: SmallVec8 = sv8_from_buf_and_len(buf, len);
    let length: usize = sv8_len(&v);
    assert(length == len);
    let capacity: usize = sv8_capacity(&v);
    assert(capacity == 8);
}

/// A vector made from a constant buffer holds all of it inline.
pub fn test_from_const() {
    let elem: u32 = any();
    let v: SmallVec8 = sv8_from_const([elem, elem, elem, elem, elem, elem, elem, elem]);
    let length: usize = sv8_len(&v);
    assert(length == 8);
    let capacity: usize = sv8_capacity(&v);
    assert(capacity == 8);
}

/// Eight copies of a value fill the inline buffer, each equal to it.
pub fn test_from_elem() {
    let elem: u32 = any();
    let v: SmallVec8 = sv8_from_elem(elem, 8);
    let length: usize = sv8_len(&v);
    assert(length == 8);
    let capacity: usize = sv8_capacity(&v);
    assert(capacity == 8);
    for i in 0..8usize
        invariant
            sv8_items(v) == Seq::new(8, |k: int| elem),
    {
        let at: u32 = sv8_get(&v, i);
        assert(at == elem);
    }
}

/// A vector copied from a slice of eight values holds them inline.
pub fn test_from_slice() {
    let mut buf: [u32; 8] = [0; 8];
    for i in 0..8usize
        invariant
            buf@.len() == 8,
    {
        buf[i] = any();
    }
    let v: SmallVec8 = sv8_from_slice(&buf);
    let length: usize = sv8_len(&v);
    assert(length == 8);
    let capacity: usize = sv8_capacity(&v);
    assert(capacity == 8);
}

/// Growing to between 8 and 16 slots keeps the values and gives exactly
/// that capacity.
pub fn test_grow() {
    let mut v: SmallVec8 = sv8_new();
    let len: usize = any();
    if !(len <= 8) {
        return;
    }
    fill_any(&mut v, len);
    let new_cap: usize = any();
    if !(new_cap >= 8 && new_cap <= 16) {
        return;
    }
    sv8_grow(&mut v, new_cap);
    let length: usize = sv8_len(&v);
    assert(length == len);
    let capacity: usize = sv8_capacity(&v);
    assert(capacity == new_cap);
}

/// Inserting within the values adds one and keeps the inline capacity.
pub fn test_insert() {
    let mut v: SmallVec8 = sv8_new();
    let len: usize = any();
    if !(len > 0 && len < 6) {
        return;
    }
    fill_any(&mut v, len);
    let insert_point: usize = any();
    if !(insert_point < len) {
        return;
    }
    sv8_insert(&mut v, insert_point, any());
    let length: usize = sv8_len(&v);
    assert(length == len + 1);
    let capacity: usize = sv8_capacity(&v);
    assert(capacity == 8);
    let insert_point2: usize = any();
    if !(insert_point2 > len + 1) {
        return;
    }
    // inserting beyond the length panics: nothing is left to check
    assert(insert_point2 > sv8_items(v).len());
}

/// Inserting another vector's values within the values adds up the lengths.
pub fn test_insert_from_slice() {
    let mut v: SmallVec8 = sv8_new();
    let mut v2: SmallVec8 = sv8_new();
    let len: usize = any();
    if !(len <= 8) {
        return;
    }
    fill_any(&mut v, len);
    let len2: usize = any();
    if !(len2 <= 8 - len) {
        return;
    }
    fill_any(&mut v2, len2);
    let insert_point: usize = any();
    if !(insert_point < len) {
        return;
    }
    sv8_insert_from_slice(&mut v, insert_point, &v2);
    let length: usize = sv8_len(&v);
    assert(length == len + len2);
    let length: usize = sv8_len(&v2);
    assert(length == len2);
    let capacity: usize = sv8_capacity(&v);
    assert(capacity == 8);
    let capacity: usize = sv8_capacity(&v2);
    assert(capacity == 8);
    let insert_point2: usize = any();
    if !(insert_point2 > len + len2) {
        return;
    }
    // inserting beyond the length panics: nothing is left to check
    assert(insert_point2 > sv8_items(v).len());
}

/// A new vector is empty with its inline capacity.
pub fn test_new() {
    let v: SmallVec8 = sv8_new();
    let length: usize = sv8_len(&v);
    assert(length == 0);
    let capacity: usize = sv8_capacity(&v);
    assert(capacity == 8);
}

/// A vector made in constant context is empty with its inline capacity.
pub fn test_new_const() {
    let v: SmallVec8 = sv8_new_const();
    let length: usize = sv8_len(&v);
    assert(length == 0);
    let capacity: usize = sv8_capacity(&v);
    assert(capacity == 8);
}

/// Popping takes one value at a time until none is left.
pub fn test_pop() {
    let mut v: SmallVec8 = sv8_new();
    let len: usize = any();
    if !(len > 0 && len <= 8) {
        return;
    }
    fill_any(&mut v, len);
    for i in 0..len
        invariant
            len <= 8,
            sv8_items(v).len() == len - i,
    {
        let _ = sv8_pop(&mut v);
        let length: usize = sv8_len(&v);
        assert(length == len - i - 1);
    }
    let result: Option<u32> = sv8_pop(&mut v);
    assert(result.is_none());
}

/// Reserving room for at least 8 values gives at least that capacity.
pub fn test_reserve() {
    let mut v: SmallVec8 = sv8_new();
    let new_cap: usize = any();
    if !(new_cap >= 8) {
        return;
    }
    // a buffer of more than `isize::MAX` bytes has no layout
    if !(new_cap <= (isize::MAX as usize) / 8) {
        return;
    }
    proof {
        lemma_pow2_ceil_upper(new_cap as nat);
        lemma_pow2_ceil_bounds(new_cap as nat);
    }
    sv8_reserve(&mut v, new_cap);
    let length: usize = sv8_len(&v);
    assert(length == 0);
    let capacity: usize = sv8_capacity(&v);
    assert(capacity >= new_cap);
}

/// Reserving exactly between 8 and 16 slots gives exactly that capacity.
pub fn test_reserve_exact() {
    let mut v: SmallVec8 = sv8_new();
    let new_cap: usize = any();
    if !(new_cap >= 8 && new_cap <= 16) {
        return;
    }
    sv8_reserve_exact(&mut v, new_cap);
    let length: usize = sv8_len(&v);
    assert(length == 0);
    let capacity: usize = sv8_capacity(&v);
    assert(capacity == new_cap);
}

/// Truncating keeps the given number of values, and truncating to more
/// changes nothing.
pub fn test_truncate() {
    let mut v: SmallVec8 = sv8_new();
    let len: usize = any();
    if !(len <= 8) {
        return;
    }
    fill_any(&mut v, len);
    let truncate_point: usize = any();
    if !(truncate_point <= len) {
        return;
    }
    sv8_truncate(&mut v, truncate_point);
    let length: usize = sv8_len(&v);
    assert(length == truncate_point);
    let capacity: usize = sv8_capacity(&v);
    assert(capacity == 8);
    let truncate_point2: usize = any();
    if !(truncate_point2 > truncate_point) {
        return;
    }
    sv8_truncate(&mut v, truncate_point2);
    let length: usize = sv8_len(&v);
    assert(length == truncate_point);
    let capacity: usize = sv8_capacity(&v);
    assert(capacity == 8);
}

/// A vector made with room for at least 8 values has exactly that capacity.
pub fn test_with_capacity() {
    let cap: usize = any();
    if !(cap >= 8) {
        return;
    }
    // a buffer of more than `isize::MAX` bytes has no layout
    if !(cap <= (isize::MAX as usize) / 4) {
        return;
    }
    let v: SmallVec8 = sv8_with_capacity(cap);
    let length: usize = sv8_len(&v);
    assert(length == 0);
    let capacity: usize = sv8_capacity(&v);
    assert(capacity == cap);
}

/// Trying to reserve room for between 8 and `u16::MAX` values gives at
/// least that capacity, unless the allocator refuses.
pub fn test_try_reserve() {
    let mut v: SmallVec8 = sv8_new();
    let new_cap: usize = any();
    if !(new_cap >= 8 && new_cap <= u16::MAX as usize) {
        return;
    }
    let result = sv8_try_reserve(&mut v, new_cap);
    if result.is_err() {
        // the allocator refused: nothing is left to check
        return;
    }
    proof {
        lemma_pow2_ceil_bounds(new_cap as nat);
    }
    let length: usize = sv8_len(&v);
    assert(length == 0);
    let capacity: usize = sv8_capacity(&v);
    assert(capacity >= new_cap);
}

/// Trying to reserve room for exactly between 8 and `u16::MAX` values gives
/// exactly that capacity, unless the allocator refuses.
pub fn test_try_reserve_exact() {
    let mut v: SmallVec8 = sv8_new();
    let new_cap: usize = any();
    if !(new_cap >= 8 && new_cap <= u16::MAX as usize) {
        return;
    }
    let result = sv8_try_reserve_exact(&mut v, new_cap);
    if result.is_err() {
        // the allocator refused: nothing is left to check
        return;
    }
    let length: usize = sv8_len(&v);
    assert(length == 0);
    let capacity: usize = sv8_capacity(&v);
    assert(capacity == new_cap);
}

/// Runs one of the harnesses, chosen arbitrarily.
pub fn entrypt() {
    let v: u8 = any();
    match v {
        0 => test_clear(),
        1 => test_extend_from_slice(),
        2 => test_from_buf(),
        3 => test_from_buf_and_len(),
        5 => test_from_const(),
        6 => test_from_elem(),
        8 => test_from_slice(),
        9 => test_grow(),
        10 => test_insert(),
        11 => test_insert_from_slice(),
        12 => test_new(),
        13 => test_new_const(),
        14 => test_pop(),
        15 => test_reserve(),
        16 => test_reserve_exact(),
        18 => test_truncate(),
        19 => test_try_reserve(),
        20 => test_try_reserve_exact(),
        21 => test_with_capacity(),
        _ => (),
    }
}

} // verus!
