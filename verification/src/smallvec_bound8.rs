//! Harnesses of `SmallVec<[u32; 8]>`: removing duplicates and removing
//! values one at a time.
use vstd::prelude::*;
use crate::seahorn::any;
use crate::smallvec_ops::{
    SmallVec8, sv8_items, sv8_cap, sv8_new, sv8_len, sv8_capacity, sv8_push, sv8_dedup,
    sv8_dedup_by, sv8_dedup_by_key, sv8_remove, sv8_swap_remove, lemma_dedup_len,
};

verus! {

/// `len` pushes of arbitrary values onto an empty inline vector.
fn fill_any(v: &mut SmallVec8, len: usize)
    requires
        sv8_items(*old(v)).len() == 0,
        sv8_cap(*old(v)) == 8,
        len <= 8,
    ensures
        sv8_items(*final(v)).len() == len,
        sv8_cap(*final(v)) == 8,
{
    let mut i: usize = 0;
    while i < len
        invariant
            i <= len <= 8,
            sv8_items(*v).len() == i,
            sv8_cap(*v) == 8,
        decreases len - i,
    {
        sv8_push(v, any());
        i = i + 1;
    }
}

/// Removing consecutive duplicates never adds values nor changes the
/// capacity.
pub fn test_dedup() {
    let mut v: SmallVec8 = sv8_new();
    let len: usize = any();
    if !(len <= 8) {
        return;
    }
    fill_any(&mut v, len);
    proof {
        lemma_dedup_len(sv8_items(v));
    }
    sv8_dedup(&mut v);
    let length: usize = sv8_len(&v);
    assert(length <= len);
    let capacity: usize = sv8_capacity(&v);
    assert(capacity == 8);
}

/// Removing consecutive equal values never adds values nor changes the
/// capacity.
pub fn test_dedup_by() {
    let mut v: SmallVec8 = sv8_new();
    let len: usize = any();
    if !(len <= 8) {
        return;
    }
    fill_any(&mut v, len);
    proof {
        lemma_dedup_len(sv8_items(v));
    }
    sv8_dedup_by(&mut v);
    let length: usize = sv8_len(&v);
    assert(length <= len);
    let capacity: usize = sv8_capacity(&v);
    assert(capacity == 8);
}

/// Removing consecutive values of equal key never adds values nor changes
/// the capacity.
pub fn test_dedup_by_key() {
    let mut v: SmallVec8 = sv8_new();
    let len: usize = any();
    if !(len <= 8) {
        return;
    }
    fill_any(&mut v, len);
    proof {
        lemma_dedup_len(sv8_items(v));
    }
    sv8_dedup_by_key(&mut v);
    let length: usize = sv8_len(&v);
    assert(length <= len);
    let capacity: usize = sv8_capacity(&v);
    assert(capacity == 8);
}

/// Each removal takes away one value and keeps the capacity, until none is
/// left.
pub fn test_remove() {
    let mut v: SmallVec8 = sv8_new();
    let len: usize = any();
    if !(len <= 8) {
        return;
    }
    fill_any(&mut v, len);
    let remove_point1: usize = any();
    if !(remove_point1 < len) {
        return;
    }
    let _ = sv8_remove(&mut v, remove_point1);
    let length: usize = sv8_len(&v);
    assert(length == len - 1);
    let capacity: usize = sv8_capacity(&v);
    assert(capacity == 8);
    let remove_point2: usize = any();
    if !(remove_point2 < len - 1) {
        return;
    }
    let _ = sv8_remove(&mut v, remove_point2);
    let length: usize = sv8_len(&v);
    assert(length == len - 2);
    let capacity: usize = sv8_capacity(&v);
    assert(capacity == 8);
    for i in 0..len - 2
        invariant
            2 <= len <= 8,
            sv8_items(v).len() == len - 2 - i,
    {
        let _ = sv8_remove(&mut v, 0);
        let length: usize = sv8_len(&v);
        assert(length == len - 3 - i);
    }
    // removing from the empty vector panics: nothing is left to check
    assert(sv8_items(v).len() == 0);
}

/// Each swapping removal takes away one value and keeps the capacity, until
/// none is left.
pub fn test_swap_remove() {
    let mut v: SmallVec8 = sv8_new();
    let len: usize = any();
    if !(len <= 8) {
        return;
    }
    fill_any(&mut v, len);
    let remove_point1: usize = any();
    if !(remove_point1 < len) {
        return;
    }
    let _ = sv8_swap_remove(&mut v, remove_point1);
    let length: usize = sv8_len(&v);
    assert(length == len - 1);
    let capacity: usize = sv8_capacity(&v);
    assert(capacity == 8);
    let remove_point2: usize = any();
    if !(remove_point2 < len - 1) {
        return;
    }
    let _ = sv8_swap_remove(&mut v, remove_point2);
    let length: usize = sv8_len(&v);
    assert(length == len - 2);
    let capacity: usize = sv8_capacity(&v);
    assert(capacity == 8);
    for i in 0..len - 2
        invariant
            2 <= len <= 8,
            sv8_items(v).len() == len - 2 - i,
    {
        let _ = sv8_swap_remove(&mut v, 0);
        let length: usize = sv8_len(&v);
        assert(length == len - 3 - i);
    }
    // removing from the empty vector panics: nothing is left to check
    assert(sv8_items(v).len() == 0);
}

/// Runs one of the harnesses, chosen arbitrarily.
pub fn entrypt() {
    let v: u8 = any();
    match v {
        1 => test_dedup(),
        2 => test_dedup_by(),
        3 => test_dedup_by_key(),
        4 => test_remove(),
        5 => test_swap_remove(),
        _ => (),
    }
}

} // verus!
