//! `ArrayVec` of the tinyvec crate, for the array sizes the harnesses
//! use. An `ArrayVec` keeps its values in a fixed array and never
//! reallocates; what it holds is named, and each method used is stated
//! over that name as the crate's source shows it.
use vstd::prelude::*;
use tinyvec::ArrayVec;
use crate::seahorn::any;
use crate::smallvec_ops::{is_even, even_u32, odd_u32};

verus! {

/// An `ArrayVec<[u32; 4]>`.
#[verifier::external_body]
pub struct ArrayVec4 {
    inner: ArrayVec<[u32; 4]>,
}

/// The values an `ArrayVec<[u32; 4]>` holds, first to last.
pub uninterp spec fn av4_items(v: ArrayVec4) -> Seq<u32>;

/// An `ArrayVec<[u32; 8]>`.
#[verifier::external_body]
pub struct ArrayVec8 {
    inner: ArrayVec<[u32; 8]>,
}

/// The values an `ArrayVec<[u32; 8]>` holds, first to last.
pub uninterp spec fn av8_items(v: ArrayVec8) -> Seq<u32>;

/// An `ArrayVec<[u32; 2]>`.
#[verifier::external_body]
pub struct ArrayVec2 {
    inner: ArrayVec<[u32; 2]>,
}

/// The values an `ArrayVec<[u32; 2]>` holds, first to last.
pub uninterp spec fn av2_items(v: ArrayVec2) -> Seq<u32>;

/// An `ArrayVec<[u32; 65536]>`.
#[verifier::external_body]
pub struct ArrayVec65536 {
    inner: ArrayVec<[u32; 65536]>,
}

/// The values an `ArrayVec<[u32; 65536]>` holds, first to last.
pub uninterp spec fn av65536_items(v: ArrayVec65536) -> Seq<u32>;

/// `ArrayVec::new`: no values.
#[verifier::external_body]
pub(crate) fn av4_new() -> (v: ArrayVec4)
    ensures
        av4_items(v) == Seq::<u32>::empty(),
{
    ArrayVec4 { inner: ArrayVec::new() }
}

/// `ArrayVec::len`: the number of values, never more than 4.
#[verifier::external_body]
pub(crate) fn av4_len(v: &ArrayVec4) -> (r: usize)
    ensures
        r == av4_items(*v).len(),
        r <= 4,
{
    v.inner.len()
}

/// `ArrayVec::capacity`: the length of the array, capped at `u16::MAX`: 4.
#[verifier::external_body]
pub(crate) fn av4_capacity(v: &ArrayVec4) -> (r: usize)
    ensures
        r == 4,
{
    v.inner.capacity()
}

/// `ArrayVec::new`: no values.
#[verifier::external_body]
pub(crate) fn av8_new() -> (v: ArrayVec8)
    ensures
        av8_items(v) == Seq::<u32>::empty(),
{
    ArrayVec8 { inner: ArrayVec::new() }
}

/// `ArrayVec::len`: the number of values, never more than 8.
#[verifier::external_body]
pub(crate) fn av8_len(v: &ArrayVec8) -> (r: usize)
    ensures
        r == av8_items(*v).len(),
        r <= 8,
{
    v.inner.len()
}

/// `ArrayVec::capacity`: the length of the array, capped at `u16::MAX`: 8.
#[verifier::external_body]
pub(crate) fn av8_capacity(v: &ArrayVec8) -> (r: usize)
    ensures
        r == 8,
{
    v.inner.capacity()
}

/// `ArrayVec::new`: no values.
#[verifier::external_body]
pub(crate) fn av2_new() -> (v: ArrayVec2)
    ensures
        av2_items(v) == Seq::<u32>::empty(),
{
    ArrayVec2 { inner: ArrayVec::new() }
}

/// `ArrayVec::len`: the number of values, never more than 2.
#[verifier::external_body]
pub(crate) fn av2_len(v: &ArrayVec2) -> (r: usize)
    ensures
        r == av2_items(*v).len(),
        r <= 2,
{
    v.inner.len()
}

/// `ArrayVec::capacity`: the length of the array, capped at `u16::MAX`: 2.
#[verifier::external_body]
pub(crate) fn av2_capacity(v: &ArrayVec2) -> (r: usize)
    ensures
        r == 2,
{
    v.inner.capacity()
}

/// `ArrayVec::new`: no values.
#[verifier::external_body]
pub(crate) fn av65536_new() -> (v: ArrayVec65536)
    ensures
        av65536_items(v) == Seq::<u32>::empty(),
{
    ArrayVec65536 { inner: ArrayVec::new() }
}

/// `ArrayVec::capacity`: the length of the array, capped at `u16::MAX`: 65535.
#[verifier::external_body]
pub(crate) fn av65536_capacity(v: &ArrayVec65536) -> (r: usize)
    ensures
        r == 65535,
{
    v.inner.capacity()
}

/// `ArrayVec::push`: appends `x`; panics when the array is full.
#[verifier::external_body]
pub(crate) fn av4_push(v: &mut ArrayVec4, x: u32)
    requires
        av4_items(*old(v)).len() < 4,
    ensures
        av4_items(*final(v)) == av4_items(*old(v)).push(x),
{
    v.inner.push(x)
}

/// `ArrayVec::push`: appends `x`; panics when the array is full.
#[verifier::external_body]
pub(crate) fn av8_push(v: &mut ArrayVec8, x: u32)
    requires
        av8_items(*old(v)).len() < 8,
    ensures
        av8_items(*final(v)) == av8_items(*old(v)).push(x),
{
    v.inner.push(x)
}

/// `ArrayVec::push`: appends `x`; panics when the array is full.
#[verifier::external_body]
pub(crate) fn av2_push(v: &mut ArrayVec2, x: u32)
    requires
        av2_items(*old(v)).len() < 2,
    ensures
        av2_items(*final(v)) == av2_items(*old(v)).push(x),
{
    v.inner.push(x)
}

/// `ArrayVec::pop`: removes and returns the last value, `None` when empty.
#[verifier::external_body]
pub(crate) fn av4_pop(v: &mut ArrayVec4) -> (r: Option<u32>)
    ensures
        av4_items(*old(v)).len() == 0 ==> r is None && av4_items(*final(v)) == av4_items(*old(v)),
        av4_items(*old(v)).len() > 0 ==> r == Some(av4_items(*old(v)).last()) && av4_items(*final(v)) == av4_items(*old(v)).drop_last(),
{
    v.inner.pop()
}

/// `ArrayVec::remove`: takes out the value at `index`, shifting the rest left; panics out of bounds.
#[verifier::external_body]
pub(crate) fn av4_remove(v: &mut ArrayVec4, index: usize) -> (r: u32)
    requires
        index < av4_items(*old(v)).len(),
    ensures
        r == av4_items(*old(v))[index as int],
        av4_items(*final(v)) == av4_items(*old(v)).remove(index as int),
{
    v.inner.remove(index)
}

/// `ArrayVec::remove`: takes out the value at `index`, shifting the rest left; panics out of bounds.
#[verifier::external_body]
pub(crate) fn av8_remove(v: &mut ArrayVec8, index: usize) -> (r: u32)
    requires
        index < av8_items(*old(v)).len(),
    ensures
        r == av8_items(*old(v))[index as int],
        av8_items(*final(v)) == av8_items(*old(v)).remove(index as int),
{
    v.inner.remove(index)
}

/// `ArrayVec::truncate`: keeps the first `len` values.
#[verifier::external_body]
pub(crate) fn av8_truncate(v: &mut ArrayVec8, len: usize)
    ensures
        av8_items(*final(v)) == if len < av8_items(*old(v)).len() { av8_items(*old(v)).take(len as int) } else { av8_items(*old(v)) },
{
    v.inner.truncate(len)
}

/// `ArrayVec::append`: moves every value of `other` to the end, leaving it empty; panics when they do not fit.
#[verifier::external_body]
pub(crate) fn av4_append(v: &mut ArrayVec4, other: &mut ArrayVec4)
    requires
        av4_items(*old(v)).len() + av4_items(*old(other)).len() <= 4,
    ensures
        av4_items(*final(v)) == av4_items(*old(v)) + av4_items(*old(other)),
        av4_items(*final(other)) == Seq::<u32>::empty(),
{
    v.inner.append(&mut other.inner)
}

/// `ArrayVec::try_append`, whether it handed `other` back: it does, untouched, when the values do not fit; else it moves them all to the end.
#[verifier::external_body]
pub(crate) fn av4_try_append(v: &mut ArrayVec4, other: &mut ArrayVec4) -> (refused: bool)
    ensures
        refused <==> av4_items(*old(v)).len() + av4_items(*old(other)).len() > 4,
        refused ==> av4_items(*final(v)) == av4_items(*old(v)) && av4_items(*final(other)) == av4_items(*old(other)),
        !refused ==> av4_items(*final(v)) == av4_items(*old(v)) + av4_items(*old(other)) && av4_items(*final(other)) == Seq::<u32>::empty(),
{
    v.inner.try_append(&mut other.inner).is_some()
}

/// `ArrayVec::drain` of `start..end`, collected into a new `ArrayVec`: the values taken out, in order; panics unless `start <= end <= len`.
#[verifier::external_body]
pub(crate) fn av4_drain_collect(v: &mut ArrayVec4, start: usize, end: usize) -> (r: ArrayVec4)
    requires
        start <= end <= av4_items(*old(v)).len(),
    ensures
        av4_items(r) == av4_items(*old(v)).subrange(start as int, end as int),
        av4_items(*final(v)) == av4_items(*old(v)).take(start as int) + av4_items(*old(v)).skip(end as int),
{
    ArrayVec4 { inner: v.inner.drain(start..end).collect() }
}

/// `ArrayVec::extend_from_slice`, given the values of `other`: appends them; panics when they do not fit.
#[verifier::external_body]
pub(crate) fn av4_extend_from_slice(v: &mut ArrayVec4, other: &ArrayVec4)
    requires
        av4_items(*old(v)).len() + av4_items(*other).len() <= 4,
    ensures
        av4_items(*final(v)) == av4_items(*old(v)) + av4_items(*other),
{
    v.inner.extend_from_slice(other.inner.as_slice())
}

/// `ArrayVec::fill` from `0..end`: appends 0, 1, 2, ... as long as there is room and numbers below `end`.
#[verifier::external_body]
pub(crate) fn av4_fill_counting(v: &mut ArrayVec4, end: u32)
    ensures
        av4_items(*final(v)) == av4_items(*old(v)) + Seq::new(if end as int <= 4 - av4_items(*old(v)).len() { end as nat } else { (4 - av4_items(*old(v)).len()) as nat }, |k: int| k as u32),
{
    { v.inner.fill(0..end); }
}

/// `ArrayVec` indexing: the value at `index`; panics out of bounds.
#[verifier::external_body]
pub(crate) fn av4_get(v: &ArrayVec4, index: usize) -> (r: u32)
    requires
        index < av4_items(*v).len(),
    ensures
        r == av4_items(*v)[index as int],
{
    v.inner[index]
}

/// `ArrayVec::insert`: puts `x` at `index`, shifting the rest right; panics when `index` exceeds the length or the array is full.
#[verifier::external_body]
pub(crate) fn av4_insert(v: &mut ArrayVec4, index: usize, x: u32)
    requires
        index <= av4_items(*old(v)).len(),
        av4_items(*old(v)).len() < 4,
    ensures
        av4_items(*final(v)) == av4_items(*old(v)).insert(index as int, x),
{
    v.inner.insert(index, x)
}

/// `ArrayVec::try_insert`: puts `x` at `index` when there is room, else hands it back; panics when `index` exceeds the length.
#[verifier::external_body]
pub(crate) fn av4_try_insert(v: &mut ArrayVec4, index: usize, x: u32) -> (r: Option<u32>)
    requires
        index <= av4_items(*old(v)).len(),
    ensures
        av4_items(*old(v)).len() == 4 ==> r == Some(x) && av4_items(*final(v)) == av4_items(*old(v)),
        av4_items(*old(v)).len() < 4 ==> r is None && av4_items(*final(v)) == av4_items(*old(v)).insert(index as int, x),
{
    v.inner.try_insert(index, x)
}

/// `ArrayVec::try_push`: appends `x` when there is room, else hands it back.
#[verifier::external_body]
pub(crate) fn av4_try_push(v: &mut ArrayVec4, x: u32) -> (r: Option<u32>)
    ensures
        av4_items(*old(v)).len() == 4 ==> r == Some(x) && av4_items(*final(v)) == av4_items(*old(v)),
        av4_items(*old(v)).len() < 4 ==> r is None && av4_items(*final(v)) == av4_items(*old(v)).push(x),
{
    v.inner.try_push(x)
}

/// `ArrayVec::resize`: truncates to `len`, or appends copies of `value` up to it; panics beyond the array.
#[verifier::external_body]
pub(crate) fn av4_resize(v: &mut ArrayVec4, len: usize, value: u32)
    requires
        len <= 4,
    ensures
        len <= av4_items(*old(v)).len() ==> av4_items(*final(v)) == av4_items(*old(v)).take(len as int),
        len > av4_items(*old(v)).len() ==> av4_items(*final(v)) == av4_items(*old(v)) + Seq::new((len - av4_items(*old(v)).len()) as nat, |k: int| value),
{
    v.inner.resize(len, value)
}

/// `ArrayVec::resize_with` with arbitrary new values: truncates to `len`, or appends values drawn by `any` up to it; panics beyond the array.
#[verifier::external_body]
pub(crate) fn av4_resize_with_any(v: &mut ArrayVec4, len: usize)
    requires
        len <= 4,
    ensures
        av4_items(*final(v)).len() == len,
        len <= av4_items(*old(v)).len() ==> av4_items(*final(v)) == av4_items(*old(v)).take(len as int),
        len > av4_items(*old(v)).len() ==> av4_items(*final(v)).take(av4_items(*old(v)).len() as int) == av4_items(*old(v)),
{
    v.inner.resize_with(len, || any())
}

/// `ArrayVec::set_len`: sets the length; beyond the old length the values are whatever the array held there; panics beyond the array.
#[verifier::external_body]
pub(crate) fn av4_set_len(v: &mut ArrayVec4, len: usize)
    requires
        len <= 4,
    ensures
        av4_items(*final(v)).len() == len,
        len <= av4_items(*old(v)).len() ==> av4_items(*final(v)) == av4_items(*old(v)).take(len as int),
        len > av4_items(*old(v)).len() ==> av4_items(*final(v)).take(av4_items(*old(v)).len() as int) == av4_items(*old(v)),
{
    v.inner.set_len(len)
}

/// `ArrayVec::splice` of `start..end` by the numbers `from..to`, collected into a new `ArrayVec`: the values taken out, in order, with the numbers in their place; panics unless `start <= end <= len`, or when the result does not fit.
#[verifier::external_body]
pub(crate) fn av4_splice_collect(v: &mut ArrayVec4, start: usize, end: usize, from: u32, to: u32) -> (r: ArrayVec4)
    requires
        start <= end <= av4_items(*old(v)).len(),
        av4_items(*old(v)).len() - (end - start) + (if from <= to { to - from } else { 0 }) <= 4,
    ensures
        av4_items(r) == av4_items(*old(v)).subrange(start as int, end as int),
        av4_items(*final(v)) == av4_items(*old(v)).take(start as int) + Seq::new(if from <= to { (to - from) as nat } else { 0 }, |k: int| (from + k) as u32) + av4_items(*old(v)).skip(end as int),
{
    ArrayVec4 { inner: v.inner.splice(start..end, from..to).collect() }
}

/// `ArrayVec::split_off`: keeps the values before `at` and returns the rest; panics when `at` exceeds the length.
#[verifier::external_body]
pub(crate) fn av4_split_off(v: &mut ArrayVec4, at: usize) -> (r: ArrayVec4)
    requires
        at <= av4_items(*old(v)).len(),
    ensures
        av4_items(r) == av4_items(*old(v)).skip(at as int),
        av4_items(*final(v)) == av4_items(*old(v)).take(at as int),
{
    ArrayVec4 { inner: v.inner.split_off(at) }
}

/// `ArrayVec::swap_remove`: takes out the value at `index`, moving the last value into its place; panics out of bounds.
#[verifier::external_body]
pub(crate) fn av4_swap_remove(v: &mut ArrayVec4, index: usize) -> (r: u32)
    requires
        index < av4_items(*old(v)).len(),
    ensures
        r == av4_items(*old(v))[index as int],
        av4_items(*final(v)) == av4_items(*old(v)).update(index as int, av4_items(*old(v)).last()).drop_last(),
{
    v.inner.swap_remove(index)
}

/// `ArrayVec::clear`: drops every value.
#[verifier::external_body]
pub(crate) fn av8_clear(v: &mut ArrayVec8)
    ensures
        av8_items(*final(v)) == Seq::<u32>::empty(),
{
    v.inner.clear()
}

/// `ArrayVec::from_array_empty`: no values, over the array given.
#[verifier::external_body]
pub(crate) fn av8_from_array_empty(data: [u32; 8]) -> (v: ArrayVec8)
    ensures
        av8_items(v) == Seq::<u32>::empty(),
{
    ArrayVec8 { inner: ArrayVec::from_array_empty(data) }
}

/// `ArrayVec::from_array_len`: the first `len` values of the array; panics beyond it.
#[verifier::external_body]
pub(crate) fn av8_from_array_len(data: [u32; 8], len: usize) -> (v: ArrayVec8)
    requires
        len <= 8,
    ensures
        av8_items(v) == data@.take(len as int),
{
    ArrayVec8 { inner: ArrayVec::from_array_len(data, len) }
}

/// `ArrayVec::try_from_array_len`: the first `len` values of the array, or
/// the array back when `len` exceeds it.
#[verifier::external_body]
pub(crate) fn av8_try_from_array_len(data: [u32; 8], len: usize) -> (r: Result<ArrayVec8, [u32; 8]>)
    ensures
        r is Ok <==> len <= 8,
        r is Ok ==> av8_items(r->Ok_0) == data@.take(len as int),
        r is Err ==> r->Err_0 == data,
{
    match ArrayVec::try_from_array_len(data, len) {
        Ok(inner) => Ok(ArrayVec8 { inner }),
        Err(back) => Err(back),
    }
}

/// `ArrayVec::retain` keeping the even values, in order.
#[verifier::external_body]
pub(crate) fn av2_retain_even(v: &mut ArrayVec2)
    ensures
        av2_items(*final(v)) == av2_items(*old(v)).filter(|x: u32| is_even(x)),
{
    v.inner.retain(|x: &u32| even_u32(x))
}

/// `ArrayVec::retain` keeping the odd values, in order.
#[verifier::external_body]
pub(crate) fn av2_retain_odd(v: &mut ArrayVec2)
    ensures
        av2_items(*final(v)) == av2_items(*old(v)).filter(|x: u32| !is_even(x)),
{
    v.inner.retain(|x: &u32| odd_u32(x))
}

} // verus!
