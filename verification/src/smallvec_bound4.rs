//! Harnesses of `SmallVec<[u32; 4]>`: pushing past the inline capacity and
//! keeping the values that pass a test.
use vstd::prelude::*;
use crate::seahorn::any;
use crate::smallvec_ops::{
    SmallVec4, sv4_items, sv4_cap, sv4_new, sv4_len, sv4_capacity, sv4_push, sv4_retain_even,
    sv4_retain_odd, sv4_retain_mut_even, sv4_retain_mut_odd, sv4_try_grow, is_even, lemma_pow2_ceil_bounds,
    lemma_pow2_ceil_upper,
};

verus! {

/// Filtering a sequence with one more value at its end filters the value
/// on its own.
pub proof fn lemma_filter_push(s: Seq<u32>, x: u32, p: spec_fn(u32) -> bool)
    ensures
        s.push(x).filter(p) == if p(x) {
            s.filter(p).push(x)
        } else {
            s.filter(p)
        },
{
    reveal(Seq::filter);
    assert(s.push(x).drop_last() =~= s);
}

/// Filtering a sequence none of whose values pass leaves nothing.
pub proof fn lemma_filter_none(s: Seq<u32>, p: spec_fn(u32) -> bool)
    requires
        forall|j: int| 0 <= j < s.len() ==> !p(#[trigger] s[j]),
    ensures
        s.filter(p).len() == 0,
    decreases s.len(),
{
    reveal(Seq::filter);
    if s.len() > 0 {
        lemma_filter_none(s.drop_last(), p);
    }
}

/// Every value a filter keeps passes it.
pub proof fn lemma_filter_all_pass(s: Seq<u32>, p: spec_fn(u32) -> bool)
    ensures
        forall|j: int| 0 <= j < s.filter(p).len() ==> p(#[trigger] s.filter(p)[j]),
{
    assert forall|j: int| 0 <= j < s.filter(p).len() implies p(#[trigger] s.filter(p)[j]) by {
        s.lemma_filter_pred(p, j);
    }
}

/// Whether the values alternate in parity from odd: odd, even, odd, ...
pub open spec fn alternates(s: Seq<u32>) -> bool {
    forall|j: int| 0 <= j < s.len() ==> (is_even(#[trigger] s[j]) <==> j % 2 == 1)
}

/// `len` pushes of arbitrary values whose parity follows their position,
/// counted from 1: odd, even, odd, ...; `false` as soon as a drawn value has
/// the wrong parity, which is then not pushed.
fn fill_alternating(v: &mut SmallVec4, len: usize) -> (ok: bool)
    requires
        sv4_items(*old(v)).len() == 0,
        sv4_cap(*old(v)) == 4,
        len <= 4,
    ensures
        len == 0 ==> ok,
        ok ==> sv4_items(*final(v)).len() == len,
        !ok ==> sv4_items(*final(v)).len() < len,
        alternates(sv4_items(*final(v))),
        sv4_cap(*final(v)) == 4,
        ok ==> sv4_items(*final(v)).filter(|x: u32| is_even(x)).len() == len / 2,
        ok ==> sv4_items(*final(v)).filter(|x: u32| !is_even(x)).len() == len - len / 2,
{
    let mut i: usize = 1;
    while i <= len
        invariant
            1 <= i <= len + 1,
            len <= 4,
            sv4_items(*v).len() == i - 1,
            sv4_cap(*v) == 4,
            sv4_items(*v).filter(|x: u32| is_even(x)).len() == (i - 1) / 2,
            sv4_items(*v).filter(|x: u32| !is_even(x)).len() == (i - 1) - (i - 1) / 2,
            alternates(sv4_items(*v)),
        decreases len + 1 - i,
    {
        let val: u32 = any();
        assert((i & 1) == 0 <==> i % 2 == 0) by (bit_vector);
        assert((val & 1) == 0 <==> val % 2 == 0) by (bit_vector);
        assert((val & 1) == 1 <==> val % 2 == 1) by (bit_vector);
        if (i & 1) == 0 {
            if !((val & 1) == 0) {
                return false;
            }
        } else {
            if !((val & 1) == 1) {
                return false;
            }
        }
        let ghost before = sv4_items(*v);
        sv4_push(v, val);
        proof {
            lemma_filter_push(before, val, |x: u32| is_even(x));
            lemma_filter_push(before, val, |x: u32| !is_even(x));
            assert(is_even(val) <==> (i - 1) % 2 == 1);
            assert forall|j: int| 0 <= j < sv4_items(*v).len() implies (is_even(#[trigger] sv4_items(*v)[j]) <==> j % 2 == 1) by {
                if j < before.len() {
                    assert(sv4_items(*v)[j] == before[j]);
                }
            }
        }
        i = i + 1;
    }
    true
}

/// Pushing up to the inline capacity keeps it; one more spills.
pub fn test_push() {
    let mut v: SmallVec4 = sv4_new();
    let len: usize = any();
    if !(len <= 4) {
        return;
    }
    for i in 0..len
        invariant
            len <= 4,
            sv4_items(v).len() == i,
            sv4_cap(v) == 4,
    {
        sv4_push(&mut v, any());
        let length: usize = sv4_len(&v);
        assert(length == i + 1);
    }
    let length: usize = sv4_len(&v);
    assert(length == len);
    let capacity: usize = sv4_capacity(&v);
    assert(capacity == 4);
    let mut i: usize = len;
    while i < 5
        invariant
            len <= i <= 5,
            sv4_items(v).len() == i,
            i <= 4 ==> sv4_cap(v) == 4,
            i == 5 ==> sv4_cap(v) > 4,
            sv4_cap(v) <= 10,
        decreases 5 - i,
    {
        proof {
            lemma_pow2_ceil_upper((i + 1) as nat);
            lemma_pow2_ceil_bounds((i + 1) as nat);
        }
        sv4_push(&mut v, any());
        i = i + 1;
    }
    let length: usize = sv4_len(&v);
    assert(length == 5);
    let capacity: usize = sv4_capacity(&v);
    assert(capacity > 4);
}

/// Of alternately odd and even values, keeping the even ones keeps half,
/// and keeping the odd ones of those keeps none.
pub fn test_retain() {
    let mut v: SmallVec4 = sv4_new();
    let len: usize = any();
    if !(len <= 4) {
        return;
    }
    if !fill_alternating(&mut v, len) {
        return;
    }
    sv4_retain_even(&mut v);
    assert(len >> 1 == len / 2) by (bit_vector);
    let length: usize = sv4_len(&v);
    assert(length == len >> 1);
    let capacity: usize = sv4_capacity(&v);
    assert(capacity == 4);
    proof {
        lemma_filter_all_pass(sv4_items(v), |x: u32| is_even(x));
        lemma_filter_none(sv4_items(v), |x: u32| !is_even(x));
    }
    sv4_retain_odd(&mut v);
    let length: usize = sv4_len(&v);
    assert(length == 0);
    let capacity: usize = sv4_capacity(&v);
    assert(capacity == 4);
}

/// Of alternately odd and even values, keeping the even ones keeps half,
/// and keeping the odd ones of those keeps none.
pub fn test_retain_mut() {
    let mut v: SmallVec4 = sv4_new();
    let len: usize = any();
    if !(len <= 4) {
        return;
    }
    if !fill_alternating(&mut v, len) {
        return;
    }
    sv4_retain_mut_even(&mut v);
    let length: usize = sv4_len(&v);
    assert(length == len / 2);
    let capacity: usize = sv4_capacity(&v);
    assert(capacity == 4);
    proof {
        lemma_filter_all_pass(sv4_items(v), |x: u32| is_even(x));
        lemma_filter_none(sv4_items(v), |x: u32| !is_even(x));
    }
    sv4_retain_mut_odd(&mut v);
    let length: usize = sv4_len(&v);
    assert(length == 0);
    let capacity: usize = sv4_capacity(&v);
    assert(capacity == 4);
}

/// Growing to between 5 and 8 slots gives exactly that capacity, unless the
/// allocator refuses; growing below the length changes nothing.
pub fn test_try_grow() {
    let mut v: SmallVec4 = sv4_new();
    let len: usize = any();
    if !(len <= 4) {
        return;
    }
    for i in 0..len
        invariant
            len <= 4,
            sv4_items(v).len() == i,
            sv4_cap(v) == 4,
    {
        sv4_push(&mut v, any());
    }
    let new_cap: usize = any();
    if !(new_cap > 4 && new_cap <= 8) {
        return;
    }
    let result = sv4_try_grow(&mut v, new_cap);
    if result.is_err() {
        // the allocator refused: nothing is left to check
        return;
    }
    let length: usize = sv4_len(&v);
    assert(length == len);
    let capacity: usize = sv4_capacity(&v);
    assert(capacity == new_cap);
    let new_cap2: usize = any();
    if !(new_cap2 < len) {
        return;
    }
    // below the length, growing leaves the vector as it is and succeeds
    let result2 = sv4_try_grow(&mut v, new_cap2);
    assert(result2.is_ok());
    let length: usize = sv4_len(&v);
    assert(length == len);
    let capacity: usize = sv4_capacity(&v);
    assert(capacity == new_cap);
}

/// Runs one of the harnesses, chosen arbitrarily.
pub fn entrypt() {
    let v: u8 = any();
    match v {
        0 => test_push(),
        1 => test_retain(),
        2 => test_retain_mut(),
        3 => test_try_grow(),
        _ => (),
    }
}

} // verus!
