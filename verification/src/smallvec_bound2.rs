//! Harnesses of `SmallVec<[u32; 2]>`: appending, draining, inserting many,
//! resizing and shrinking.
use vstd::prelude::*;
use crate::seahorn::any;
use crate::smallvec_ops::{
    SmallVec2, sv2_items, sv2_cap, sv2_new, sv2_len, sv2_capacity, sv2_push, sv2_pop,
    sv2_append, sv2_drain_collect, sv2_clone, sv2_insert_many, sv2_resize, sv2_resize_with_any,
    sv2_shrink_to_fit, lemma_pow2_ceil_upper, lemma_pow2_ceil_bounds,
};

verus! {

/// `len` pushes of arbitrary values onto an empty inline vector.
fn fill_any(v: &mut SmallVec2, len: usize)
    requires
        sv2_items(*old(v)).len() == 0,
        sv2_cap(*old(v)) == 2,
        len <= 2,
    ensures
        sv2_items(*final(v)).len() == len,
        sv2_cap(*final(v)) == 2,
{
    let mut i: usize = 0;
    while i < len
        invariant
            i <= len <= 2,
            sv2_items(*v).len() == i,
            sv2_cap(*v) == 2,
        decreases len - i,
    {
        sv2_push(v, any());
        i = i + 1;
    }
}

/// Appending adds up the lengths.
pub fn test_append() {
    let mut v: SmallVec2 = sv2_new();
    let len: usize = any();
    if !(len <= 2) {
        return;
    }
    fill_any(&mut v, len);
    let mut v2: SmallVec2 = sv2_new();
    let len2: usize = any();
    if !(len2 <= 2) {
        return;
    }
    fill_any(&mut v2, len2);
    proof {
        if len + len2 >= 1 {
            lemma_pow2_ceil_upper((len + len2) as nat);
        }
    }
    sv2_append(&mut v, &mut v2);
    let length: usize = sv2_len(&v);
    assert(length == len + len2);
    let capacity: usize = sv2_capacity(&v);
    assert(capacity >= 2);
}

/// Draining from a point takes the values after it; draining again from
/// there takes nothing; draining a tail of the drained values takes it.
pub fn test_drain() {
    let mut v1: SmallVec2 = sv2_new();
    let len: usize = any();
    if !(len <= 2) {
        return;
    }
    fill_any(&mut v1, len);
    let drain_point: usize = any();
    if !(drain_point < len) {
        return;
    }
    let end1: usize = sv2_len(&v1);
    let mut v2: SmallVec2 = sv2_drain_collect(&mut v1, drain_point, end1);
    let length: usize = sv2_len(&v1);
    assert(length == drain_point);
    let length: usize = sv2_len(&v2);
    assert(length == len - drain_point);
    let end2: usize = sv2_len(&v1);
    let v3: SmallVec2 = sv2_drain_collect(&mut v1, drain_point, end2);
    let length: usize = sv2_len(&v1);
    assert(length == drain_point);
    let length: usize = sv2_len(&v3);
    assert(length == 0);
    let drain_point2: usize = any();
    if !(drain_point2 < len - drain_point) {
        return;
    }
    let v4: SmallVec2 = sv2_drain_collect(&mut v2, drain_point2, len - drain_point);
    let length: usize = sv2_len(&v2);
    assert(length == drain_point2);
    let length: usize = sv2_len(&v4);
    assert(length == len - drain_point - drain_point2);
}

/// Inserting a copy of another vector within the values adds up the
/// lengths and keeps both inline.
pub fn test_insert_many() {
    let mut v: SmallVec2 = sv2_new();
    let mut v2: SmallVec2 = sv2_new();
    let len: usize = any();
    if !(len <= 2) {
        return;
    }
    fill_any(&mut v, len);
    let len2: usize = any();
    if !(len2 <= 2) {
        return;
    }
    if !(len2 <= 2 - len) {
        return;
    }
    fill_any(&mut v2, len2);
    let insert_point: usize = any();
    if !(insert_point < len) {
        return;
    }
    let copy: SmallVec2 = sv2_clone(&v2);
    sv2_insert_many(&mut v, insert_point, copy);
    let length: usize = sv2_len(&v);
    assert(length == len + len2);
    let length: usize = sv2_len(&v2);
    assert(length == len2);
    let capacity: usize = sv2_capacity(&v);
    assert(capacity == 2);
    let capacity: usize = sv2_capacity(&v2);
    assert(capacity == 2);
}

/// Resizing within the inline capacity gives the length asked for.
pub fn test_resize() {
    let mut v: SmallVec2 = sv2_new();
    let len: usize = any();
    if !(len <= 2) {
        return;
    }
    fill_any(&mut v, len);
    let resize_point: usize = any();
    if !(resize_point <= 2) {
        return;
    }
    sv2_resize(&mut v, resize_point, any());
    let length: usize = sv2_len(&v);
    assert(length == resize_point);
}

/// Resizing beyond the inline capacity, up to twice it, gives the length
/// asked for.
pub fn test_resize2() {
    let mut v: SmallVec2 = sv2_new();
    let len: usize = any();
    if !(len <= 2) {
        return;
    }
    fill_any(&mut v, len);
    let resize_point: usize = any();
    if !(resize_point > 2 && resize_point <= 4) {
        return;
    }
    proof {
        lemma_pow2_ceil_upper(resize_point as nat);
    }
    sv2_resize(&mut v, resize_point, any());
    let length: usize = sv2_len(&v);
    assert(length == resize_point);
}

/// Resizing with drawn values within the inline capacity gives the length
/// asked for.
pub fn test_resize_with() {
    let mut v: SmallVec2 = sv2_new();
    let len: usize = any();
    if !(len <= 2) {
        return;
    }
    fill_any(&mut v, len);
    let resize_point: usize = any();
    if !(resize_point <= 2) {
        return;
    }
    sv2_resize_with_any(&mut v, resize_point);
    let length: usize = sv2_len(&v);
    assert(length == resize_point);
}

/// Resizing with drawn values beyond the inline capacity, up to twice it,
/// gives the length asked for.
pub fn test_resize_with2() {
    let mut v: SmallVec2 = sv2_new();
    let len: usize = any();
    if !(len <= 2) {
        return;
    }
    fill_any(&mut v, len);
    let resize_point: usize = any();
    if !(resize_point > 2 && resize_point <= 4) {
        return;
    }
    proof {
        lemma_pow2_ceil_upper(resize_point as nat);
    }
    sv2_resize_with_any(&mut v, resize_point);
    let length: usize = sv2_len(&v);
    assert(length == resize_point);
}

/// Shrinking an inline vector changes nothing; one pushed beyond the
/// inline capacity and popped back shrinks back inline.
pub fn test_shrink_to_fit() {
    let mut v: SmallVec2 = sv2_new();
    let len: usize = any();
    if !(len <= 2) {
        return;
    }
    fill_any(&mut v, len);
    sv2_shrink_to_fit(&mut v);
    let length: usize = sv2_len(&v);
    assert(length == len);
    let capacity: usize = sv2_capacity(&v);
    assert(capacity == 2);
    let mut i: usize = len;
    while i < 3
        invariant
            len <= i <= 3,
            sv2_items(v).len() == i,
            i <= 2 ==> sv2_cap(v) == 2,
            i == 3 ==> sv2_cap(v) > 2,
            sv2_cap(v) <= 6,
        decreases 3 - i,
    {
        proof {
            lemma_pow2_ceil_upper((i + 1) as nat);
            lemma_pow2_ceil_bounds((i + 1) as nat);
        }
        sv2_push(&mut v, any());
        i = i + 1;
    }
    let length: usize = sv2_len(&v);
    assert(length == 3);
    let capacity: usize = sv2_capacity(&v);
    assert(capacity > 2);
    let _ = sv2_pop(&mut v);
    sv2_shrink_to_fit(&mut v);
    let length: usize = sv2_len(&v);
    assert(length == 2);
    let capacity: usize = sv2_capacity(&v);
    assert(capacity == 2);
}

/// Runs one of the harnesses, chosen arbitrarily.
pub fn entrypt() {
    let v: u8 = any();
    match v {
        0 => test_append(),
        1 => test_drain(),
        3 => test_insert_many(),
        5 => test_resize(),
        6 => test_resize2(),
        7 => test_resize_with(),
        8 => test_resize_with2(),
        9 => test_shrink_to_fit(),
        _ => (),
    }
}

} // verus!
