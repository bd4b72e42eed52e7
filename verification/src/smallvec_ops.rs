//! `SmallVec` of the smallvec crate, for the three inline sizes the
//! harnesses use. What a vector holds and how many values it can hold
//! without reallocating are named; each method used is stated over those
//! names as the crate's source shows it.
use vstd::prelude::*;
use smallvec::SmallVec;
use crate::seahorn::any;

verus! {

/// A `SmallVec<[u32; 8]>`.
#[verifier::external_body]
pub struct SmallVec8 {
    inner: SmallVec<[u32; 8]>,
}

/// A `SmallVec<[u32; 4]>`.
#[verifier::external_body]
pub struct SmallVec4 {
    inner: SmallVec<[u32; 4]>,
}

/// A `SmallVec<[u32; 2]>`.
#[verifier::external_body]
pub struct SmallVec2 {
    inner: SmallVec<[u32; 2]>,
}

/// The smallest power of two that is at least `n`.
pub open spec fn pow2_ceil(n: nat) -> nat
    decreases n,
{
    if n <= 1 {
        1
    } else {
        2 * pow2_ceil(((n + 1) / 2) as nat)
    }
}

/// The capacity after reserving room for `additional` more values beyond
/// `len` in a buffer of `cap`: unchanged when they fit, else the power of
/// two that holds them.
pub open spec fn reserved_cap(len: nat, cap: nat, additional: nat) -> nat {
    if cap >= len + additional {
        cap
    } else {
        pow2_ceil(len + additional)
    }
}

/// Reserving does not overflow: either nothing is allocated, or the power
/// of two allocated has a layout for `u32`.
pub open spec fn reserve_fits(len: nat, cap: nat, additional: nat) -> bool {
    cap >= len + additional || 4 * pow2_ceil(len + additional) <= isize::MAX
}

/// Consecutive duplicates removed: each value is kept unless it equals the
/// one before it.
pub open spec fn dedup_seq(s: Seq<u32>) -> Seq<u32>
    decreases s.len(),
{
    if s.len() <= 1 {
        s
    } else if s.last() == s[s.len() - 2] {
        dedup_seq(s.drop_last())
    } else {
        dedup_seq(s.drop_last()).push(s.last())
    }
}

/// Whether a number is even.
pub open spec fn is_even(x: u32) -> bool {
    x % 2 == 0
}

/// Whether `x` is even.
pub fn even_u32(x: &u32) -> (r: bool)
    ensures
        r == is_even(*x),
{
    *x % 2 == 0
}

/// Whether `x` is odd.
pub fn odd_u32(x: &u32) -> (r: bool)
    ensures
        r == !is_even(*x),
{
    *x % 2 == 1
}

/// Whether two numbers are equal.
pub fn same_u32(a: &u32, b: &u32) -> (r: bool)
    ensures
        r == (*a == *b),
{
    *a == *b
}

/// The number itself, as the key it is compared by.
pub fn key_u32(a: &u32) -> (r: u32)
    ensures
        r == *a,
{
    *a
}

/// Removing consecutive duplicates never makes a sequence longer.
pub proof fn lemma_dedup_len(s: Seq<u32>)
    ensures
        dedup_seq(s).len() <= s.len(),
    decreases s.len(),
{
    if s.len() > 1 {
        lemma_dedup_len(s.drop_last());
    }
}

/// From 2 on, the power of two is at most twice the number, less two.
proof fn lemma_pow2_ceil_upper_from_two(n: nat)
    requires
        n >= 2,
    ensures
        pow2_ceil(n) <= 2 * n - 2,
    decreases n,
{
    let m = ((n + 1) / 2) as nat;
    if m >= 2 {
        lemma_pow2_ceil_upper_from_two(m);
    } else {
        assert(pow2_ceil(1) == 1);
    }
}

/// The power of two is at most twice the number it is computed for.
pub proof fn lemma_pow2_ceil_upper(n: nat)
    requires
        n >= 1,
    ensures
        pow2_ceil(n) <= 2 * n,
{
    if n >= 2 {
        lemma_pow2_ceil_upper_from_two(n);
    }
}

/// A power of two is at least the number it is computed for, and at least 1.
pub proof fn lemma_pow2_ceil_bounds(n: nat)
    ensures
        pow2_ceil(n) >= n,
        pow2_ceil(n) >= 1,
    decreases n,
{
    if n > 1 {
        lemma_pow2_ceil_bounds(((n + 1) / 2) as nat);
    }
}

/// The values a `SmallVec8` holds, first to last.
pub uninterp spec fn sv8_items(v: SmallVec8) -> Seq<u32>;

/// The number of values a `SmallVec8` holds without reallocating: 8 while
/// they fit inline, else what was allocated.
pub uninterp spec fn sv8_cap(v: SmallVec8) -> nat;

/// The values a `SmallVec4` holds, first to last.
pub uninterp spec fn sv4_items(v: SmallVec4) -> Seq<u32>;

/// The number of values a `SmallVec4` holds without reallocating: 4 while
/// they fit inline, else what was allocated.
pub uninterp spec fn sv4_cap(v: SmallVec4) -> nat;

/// The values a `SmallVec2` holds, first to last.
pub uninterp spec fn sv2_items(v: SmallVec2) -> Seq<u32>;

/// The number of values a `SmallVec2` holds without reallocating: 2 while
/// they fit inline, else what was allocated.
pub uninterp spec fn sv2_cap(v: SmallVec2) -> nat;

/// `SmallVec::new`: no values, the 8 inline slots.
#[verifier::external_body]
pub(crate) fn sv8_new() -> (v: SmallVec8)
    ensures
        sv8_items(v) == Seq::<u32>::empty(),
        sv8_cap(v) == 8,
{
    SmallVec8 { inner: SmallVec::new() }
}

/// `SmallVec::len`: the number of values.
#[verifier::external_body]
pub(crate) fn sv8_len(v: &SmallVec8) -> (r: usize)
    ensures
        r == sv8_items(*v).len(),
{
    v.inner.len()
}

/// `SmallVec::capacity`: the number of values it holds without
/// reallocating, never fewer than it holds nor than 8.
#[verifier::external_body]
pub(crate) fn sv8_capacity(v: &SmallVec8) -> (r: usize)
    ensures
        r == sv8_cap(*v),
        sv8_items(*v).len() <= r,
        8 <= r,
{
    v.inner.capacity()
}

/// `SmallVec::push`: appends `x`; a full vector first grows to the power of
/// two above its length.
#[verifier::external_body]
pub(crate) fn sv8_push(v: &mut SmallVec8, x: u32)
    requires
        reserve_fits(sv8_items(*old(v)).len(), sv8_cap(*old(v)), 1),
    ensures
        sv8_items(*final(v)) == sv8_items(*old(v)).push(x),
        sv8_cap(*final(v)) == reserved_cap(sv8_items(*old(v)).len(), sv8_cap(*old(v)), 1),
{
    v.inner.push(x)
}

/// `SmallVec::pop`: removes and returns the last value, `None` when empty;
/// the capacity stays.
#[verifier::external_body]
pub(crate) fn sv8_pop(v: &mut SmallVec8) -> (r: Option<u32>)
    ensures
        sv8_cap(*final(v)) == sv8_cap(*old(v)),
        sv8_items(*old(v)).len() == 0 ==> r is None && sv8_items(*final(v)) == sv8_items(*old(v)),
        sv8_items(*old(v)).len() > 0 ==> r == Some(sv8_items(*old(v)).last()) && sv8_items(*final(v)) == sv8_items(*old(v)).drop_last(),
{
    v.inner.pop()
}

/// `SmallVec::new`: no values, the 4 inline slots.
#[verifier::external_body]
pub(crate) fn sv4_new() -> (v: SmallVec4)
    ensures
        sv4_items(v) == Seq::<u32>::empty(),
        sv4_cap(v) == 4,
{
    SmallVec4 { inner: SmallVec::new() }
}

/// `SmallVec::len`: the number of values.
#[verifier::external_body]
pub(crate) fn sv4_len(v: &SmallVec4) -> (r: usize)
    ensures
        r == sv4_items(*v).len(),
{
    v.inner.len()
}

/// `SmallVec::capacity`: the number of values it holds without
/// reallocating, never fewer than it holds nor than 4.
#[verifier::external_body]
pub(crate) fn sv4_capacity(v: &SmallVec4) -> (r: usize)
    ensures
        r == sv4_cap(*v),
        sv4_items(*v).len() <= r,
        4 <= r,
{
    v.inner.capacity()
}

/// `SmallVec::push`: appends `x`; a full vector first grows to the power of
/// two above its length.
#[verifier::external_body]
pub(crate) fn sv4_push(v: &mut SmallVec4, x: u32)
    requires
        reserve_fits(sv4_items(*old(v)).len(), sv4_cap(*old(v)), 1),
    ensures
        sv4_items(*final(v)) == sv4_items(*old(v)).push(x),
        sv4_cap(*final(v)) == reserved_cap(sv4_items(*old(v)).len(), sv4_cap(*old(v)), 1),
{
    v.inner.push(x)
}

/// `SmallVec::new`: no values, the 2 inline slots.
#[verifier::external_body]
pub(crate) fn sv2_new() -> (v: SmallVec2)
    ensures
        sv2_items(v) == Seq::<u32>::empty(),
        sv2_cap(v) == 2,
{
    SmallVec2 { inner: SmallVec::new() }
}

/// `SmallVec::len`: the number of values.
#[verifier::external_body]
pub(crate) fn sv2_len(v: &SmallVec2) -> (r: usize)
    ensures
        r == sv2_items(*v).len(),
{
    v.inner.len()
}

/// `SmallVec::capacity`: the number of values it holds without
/// reallocating, never fewer than it holds nor than 2.
#[verifier::external_body]
pub(crate) fn sv2_capacity(v: &SmallVec2) -> (r: usize)
    ensures
        r == sv2_cap(*v),
        sv2_items(*v).len() <= r,
        2 <= r,
{
    v.inner.capacity()
}

/// `SmallVec::push`: appends `x`; a full vector first grows to the power of
/// two above its length.
#[verifier::external_body]
pub(crate) fn sv2_push(v: &mut SmallVec2, x: u32)
    requires
        reserve_fits(sv2_items(*old(v)).len(), sv2_cap(*old(v)), 1),
    ensures
        sv2_items(*final(v)) == sv2_items(*old(v)).push(x),
        sv2_cap(*final(v)) == reserved_cap(sv2_items(*old(v)).len(), sv2_cap(*old(v)), 1),
{
    v.inner.push(x)
}

/// `SmallVec::pop`: removes and returns the last value, `None` when empty;
/// the capacity stays.
#[verifier::external_body]
pub(crate) fn sv2_pop(v: &mut SmallVec2) -> (r: Option<u32>)
    ensures
        sv2_cap(*final(v)) == sv2_cap(*old(v)),
        sv2_items(*old(v)).len() == 0 ==> r is None && sv2_items(*final(v)) == sv2_items(*old(v)),
        sv2_items(*old(v)).len() > 0 ==> r == Some(sv2_items(*old(v)).last()) && sv2_items(*final(v)) == sv2_items(*old(v)).drop_last(),
{
    v.inner.pop()
}

/// `SmallVec::new_const`: no values, the 8 inline slots.
#[verifier::external_body]
pub(crate) fn sv8_new_const() -> (v: SmallVec8)
    ensures
        sv8_items(v) == Seq::<u32>::empty(),
        sv8_cap(v) == 8,
{
    SmallVec8 { inner: SmallVec::new_const() }
}

/// `SmallVec::clear`: drops every value; the capacity stays.
#[verifier::external_body]
pub(crate) fn sv8_clear(v: &mut SmallVec8)
    ensures
        sv8_items(*final(v)) == Seq::<u32>::empty(),
        sv8_cap(*final(v)) == sv8_cap(*old(v)),
{
    v.inner.clear()
}

/// `SmallVec::extend_from_slice`, given the values of `other`: appends them, reserving room for them first.
#[verifier::external_body]
pub(crate) fn sv8_extend_from_slice(v: &mut SmallVec8, other: &SmallVec8)
    requires
        reserve_fits(sv8_items(*old(v)).len(), sv8_cap(*old(v)), sv8_items(*other).len()),
    ensures
        sv8_items(*final(v)) == sv8_items(*old(v)) + sv8_items(*other),
        sv8_cap(*final(v)) == reserved_cap(sv8_items(*old(v)).len(), sv8_cap(*old(v)), sv8_items(*other).len()),
{
    v.inner.extend_from_slice(&other.inner)
}

/// `SmallVec::from_buf`: the 8 values of `buf`, inline.
#[verifier::external_body]
pub(crate) fn sv8_from_buf(buf: [u32; 8]) -> (v: SmallVec8)
    ensures
        sv8_items(v) == buf@,
        sv8_cap(v) == 8,
{
    SmallVec8 { inner: SmallVec::from_buf(buf) }
}

/// `SmallVec::from_buf_and_len`: the first `len` values of `buf`, inline; panics when `len` exceeds 8.
#[verifier::external_body]
pub(crate) fn sv8_from_buf_and_len(buf: [u32; 8], len: usize) -> (v: SmallVec8)
    requires
        len <= 8,
    ensures
        sv8_items(v) == buf@.take(len as int),
        sv8_cap(v) == 8,
{
    SmallVec8 { inner: SmallVec::from_buf_and_len(buf, len) }
}

/// `SmallVec::from_const`: the 8 values of `items`, inline.
#[verifier::external_body]
pub(crate) fn sv8_from_const(items: [u32; 8]) -> (v: SmallVec8)
    ensures
        sv8_items(v) == items@,
        sv8_cap(v) == 8,
{
    SmallVec8 { inner: SmallVec::from_const(items) }
}

/// `SmallVec::from_elem`: `count` copies of `elem`; inline when they fit, else in a vector of at least that capacity.
#[verifier::external_body]
pub(crate) fn sv8_from_elem(elem: u32, count: usize) -> (v: SmallVec8)
    requires
        4 * count <= isize::MAX,
    ensures
        sv8_items(v) == Seq::new(count as nat, |i: int| elem),
        count <= 8 ==> sv8_cap(v) == 8,
        count > 8 ==> sv8_cap(v) >= count,
{
    SmallVec8 { inner: SmallVec::from_elem(elem, count) }
}

/// `SmallVec` indexing: the value at `i`; panics out of bounds.
#[verifier::external_body]
pub(crate) fn sv8_get(v: &SmallVec8, i: usize) -> (r: u32)
    requires
        i < sv8_items(*v).len(),
    ensures
        r == sv8_items(*v)[i as int],
{
    v.inner[i]
}

/// `SmallVec::from_slice`: a copy of the values of `s`; inline when they fit, else in a vector of at least that capacity.
#[verifier::external_body]
pub(crate) fn sv8_from_slice(s: &[u32]) -> (v: SmallVec8)
    ensures
        sv8_items(v) == s@,
        s@.len() <= 8 ==> sv8_cap(v) == 8,
        s@.len() > 8 ==> sv8_cap(v) >= s@.len(),
{
    SmallVec8 { inner: SmallVec::from_slice(s) }
}

/// `SmallVec::grow`: nothing below the length; back inline up to 8; else exactly `new_cap` slots.
#[verifier::external_body]
pub(crate) fn sv8_grow(v: &mut SmallVec8, new_cap: usize)
    requires
        new_cap > 8 && new_cap >= sv8_items(*old(v)).len() ==> 4 * new_cap <= isize::MAX,
    ensures
        sv8_items(*final(v)) == sv8_items(*old(v)),
        sv8_cap(*final(v)) == if new_cap < sv8_items(*old(v)).len() { sv8_cap(*old(v)) } else if new_cap <= 8 { 8 } else { new_cap as nat },
{
    v.inner.grow(new_cap)
}

/// `SmallVec::reserve`: room for `additional` more values, rounded up to a power of two when it reallocates.
#[verifier::external_body]
pub(crate) fn sv8_reserve(v: &mut SmallVec8, additional: usize)
    requires
        reserve_fits(sv8_items(*old(v)).len(), sv8_cap(*old(v)), additional as nat),
    ensures
        sv8_items(*final(v)) == sv8_items(*old(v)),
        sv8_cap(*final(v)) == reserved_cap(sv8_items(*old(v)).len(), sv8_cap(*old(v)), additional as nat),
{
    v.inner.reserve(additional)
}

/// `SmallVec::reserve_exact`: room for exactly `additional` more values when it reallocates.
#[verifier::external_body]
pub(crate) fn sv8_reserve_exact(v: &mut SmallVec8, additional: usize)
    requires
        sv8_cap(*old(v)) >= sv8_items(*old(v)).len() + additional || 4 * (sv8_items(*old(v)).len() + additional) <= isize::MAX,
    ensures
        sv8_items(*final(v)) == sv8_items(*old(v)),
        sv8_cap(*final(v)) == if sv8_cap(*old(v)) >= sv8_items(*old(v)).len() + additional { sv8_cap(*old(v)) } else { (sv8_items(*old(v)).len() + additional) as nat },
{
    v.inner.reserve_exact(additional)
}

/// `SmallVec::truncate`: keeps the first `len` values; the capacity stays.
#[verifier::external_body]
pub(crate) fn sv8_truncate(v: &mut SmallVec8, len: usize)
    ensures
        sv8_items(*final(v)) == if len < sv8_items(*old(v)).len() { sv8_items(*old(v)).take(len as int) } else { sv8_items(*old(v)) },
        sv8_cap(*final(v)) == sv8_cap(*old(v)),
{
    v.inner.truncate(len)
}

/// `SmallVec::with_capacity`: no values, inline up to 8, else exactly `count` slots.
#[verifier::external_body]
pub(crate) fn sv8_with_capacity(count: usize) -> (v: SmallVec8)
    requires
        count <= 8 || 4 * count <= isize::MAX,
    ensures
        sv8_items(v) == Seq::<u32>::empty(),
        sv8_cap(v) == if count <= 8 { 8 } else { count as nat },
{
    SmallVec8 { inner: SmallVec::with_capacity(count) }
}

/// `SmallVec::dedup`: removes each value equal to the one before it.
#[verifier::external_body]
pub(crate) fn sv8_dedup(v: &mut SmallVec8)
    ensures
        sv8_items(*final(v)) == dedup_seq(sv8_items(*old(v))),
        sv8_cap(*final(v)) == sv8_cap(*old(v)),
{
    v.inner.dedup()
}

/// `SmallVec::dedup_by` with equality as the relation: removes each value equal to the one before it.
#[verifier::external_body]
pub(crate) fn sv8_dedup_by(v: &mut SmallVec8)
    ensures
        sv8_items(*final(v)) == dedup_seq(sv8_items(*old(v))),
        sv8_cap(*final(v)) == sv8_cap(*old(v)),
{
    v.inner.dedup_by(|a: &mut u32, b: &mut u32| same_u32(a, b))
}

/// `SmallVec::dedup_by_key` with the value as its own key: removes each value equal to the one before it.
#[verifier::external_body]
pub(crate) fn sv8_dedup_by_key(v: &mut SmallVec8)
    ensures
        sv8_items(*final(v)) == dedup_seq(sv8_items(*old(v))),
        sv8_cap(*final(v)) == sv8_cap(*old(v)),
{
    v.inner.dedup_by_key(|a: &mut u32| key_u32(a))
}

/// `SmallVec::remove`: takes out the value at `index`, shifting the rest left; panics out of bounds.
#[verifier::external_body]
pub(crate) fn sv8_remove(v: &mut SmallVec8, index: usize) -> (r: u32)
    requires
        index < sv8_items(*old(v)).len(),
    ensures
        r == sv8_items(*old(v))[index as int],
        sv8_items(*final(v)) == sv8_items(*old(v)).remove(index as int),
        sv8_cap(*final(v)) == sv8_cap(*old(v)),
{
    v.inner.remove(index)
}

/// `SmallVec::swap_remove`: takes out the value at `index`, moving the last value into its place; panics out of bounds.
#[verifier::external_body]
pub(crate) fn sv8_swap_remove(v: &mut SmallVec8, index: usize) -> (r: u32)
    requires
        index < sv8_items(*old(v)).len(),
    ensures
        r == sv8_items(*old(v))[index as int],
        sv8_items(*final(v)) == sv8_items(*old(v)).update(index as int, sv8_items(*old(v)).last()).drop_last(),
        sv8_cap(*final(v)) == sv8_cap(*old(v)),
{
    v.inner.swap_remove(index)
}

/// `SmallVec::insert`: puts `x` at `index`, shifting the rest right, growing as `push` does; panics when `index` exceeds the length.
#[verifier::external_body]
pub(crate) fn sv8_insert(v: &mut SmallVec8, index: usize, x: u32)
    requires
        index <= sv8_items(*old(v)).len(),
        reserve_fits(sv8_items(*old(v)).len(), sv8_cap(*old(v)), 1),
    ensures
        sv8_items(*final(v)) == sv8_items(*old(v)).insert(index as int, x),
        sv8_cap(*final(v)) == reserved_cap(sv8_items(*old(v)).len(), sv8_cap(*old(v)), 1),
{
    v.inner.insert(index, x)
}

/// `SmallVec::insert_from_slice`, given the values of `other`: puts them at `index`, reserving room first; panics when `index` exceeds the length.
#[verifier::external_body]
pub(crate) fn sv8_insert_from_slice(v: &mut SmallVec8, index: usize, other: &SmallVec8)
    requires
        index <= sv8_items(*old(v)).len(),
        reserve_fits(sv8_items(*old(v)).len(), sv8_cap(*old(v)), sv8_items(*other).len()),
    ensures
        sv8_items(*final(v)) == sv8_items(*old(v)).take(index as int) + sv8_items(*other) + sv8_items(*old(v)).skip(index as int),
        sv8_cap(*final(v)) == reserved_cap(sv8_items(*old(v)).len(), sv8_cap(*old(v)), sv8_items(*other).len()),
{
    v.inner.insert_from_slice(index, &other.inner)
}

/// `SmallVec::append`: moves every value of `other` to the end, leaving it empty.
#[verifier::external_body]
pub(crate) fn sv2_append(v: &mut SmallVec2, other: &mut SmallVec2)
    requires
        reserve_fits(sv2_items(*old(v)).len(), sv2_cap(*old(v)), sv2_items(*old(other)).len()),
    ensures
        sv2_items(*final(v)) == sv2_items(*old(v)) + sv2_items(*old(other)),
        sv2_items(*final(other)) == Seq::<u32>::empty(),
        sv2_cap(*final(v)) == reserved_cap(sv2_items(*old(v)).len(), sv2_cap(*old(v)), sv2_items(*old(other)).len()),
{
    v.inner.append(&mut other.inner)
}

/// `SmallVec::drain` of `start..end`, collected into a new vector: the values taken out, in order; panics unless `start <= end <= len`.
#[verifier::external_body]
pub(crate) fn sv2_drain_collect(v: &mut SmallVec2, start: usize, end: usize) -> (r: SmallVec2)
    requires
        start <= end <= sv2_items(*old(v)).len(),
    ensures
        sv2_items(r) == sv2_items(*old(v)).subrange(start as int, end as int),
        sv2_items(*final(v)) == sv2_items(*old(v)).take(start as int) + sv2_items(*old(v)).skip(end as int),
        sv2_cap(*final(v)) == sv2_cap(*old(v)),
        sv2_cap(r) == reserved_cap(0, 2, (end - start) as nat),
{
    SmallVec2 { inner: v.inner.drain(start..end).collect() }
}

/// `SmallVec::clone`: the same values, inline when they fit.
#[verifier::external_body]
pub(crate) fn sv2_clone(v: &SmallVec2) -> (r: SmallVec2)
    ensures
        sv2_items(r) == sv2_items(*v),
        sv2_items(*v).len() <= 2 ==> sv2_cap(r) == 2,
        sv2_items(*v).len() > 2 ==> sv2_cap(r) >= sv2_items(*v).len(),
{
    SmallVec2 { inner: v.inner.clone() }
}

/// `SmallVec::insert_many` of the values of `other`: puts them at `index`, reserving room first; panics when `index` exceeds the length.
#[verifier::external_body]
pub(crate) fn sv2_insert_many(v: &mut SmallVec2, index: usize, other: SmallVec2)
    requires
        index <= sv2_items(*old(v)).len(),
        reserve_fits(sv2_items(*old(v)).len(), sv2_cap(*old(v)), sv2_items(other).len()),
    ensures
        sv2_items(*final(v)) == sv2_items(*old(v)).take(index as int) + sv2_items(other) + sv2_items(*old(v)).skip(index as int),
        sv2_cap(*final(v)) == reserved_cap(sv2_items(*old(v)).len(), sv2_cap(*old(v)), sv2_items(other).len()),
{
    v.inner.insert_many(index, other.inner)
}

/// `SmallVec::resize`: truncates to `len`, or appends copies of `value` up to it after reserving room.
#[verifier::external_body]
pub(crate) fn sv2_resize(v: &mut SmallVec2, len: usize, value: u32)
    requires
        len > sv2_items(*old(v)).len() ==> reserve_fits(sv2_items(*old(v)).len(), sv2_cap(*old(v)), (len - sv2_items(*old(v)).len()) as nat),
    ensures
        len <= sv2_items(*old(v)).len() ==> sv2_items(*final(v)) == sv2_items(*old(v)).take(len as int) && sv2_cap(*final(v)) == sv2_cap(*old(v)),
        len > sv2_items(*old(v)).len() ==> sv2_items(*final(v)) == sv2_items(*old(v)) + Seq::new((len - sv2_items(*old(v)).len()) as nat, |i: int| value),
        len > sv2_items(*old(v)).len() ==> sv2_cap(*final(v)) == reserved_cap(sv2_items(*old(v)).len(), sv2_cap(*old(v)), (len - sv2_items(*old(v)).len()) as nat),
{
    v.inner.resize(len, value)
}

/// `SmallVec::resize_with` with arbitrary new values: truncates to `len`, or appends values drawn by `any` up to it after reserving room.
#[verifier::external_body]
pub(crate) fn sv2_resize_with_any(v: &mut SmallVec2, len: usize)
    requires
        len > sv2_items(*old(v)).len() ==> reserve_fits(sv2_items(*old(v)).len(), sv2_cap(*old(v)), (len - sv2_items(*old(v)).len()) as nat),
    ensures
        sv2_items(*final(v)).len() == len,
        len <= sv2_items(*old(v)).len() ==> sv2_items(*final(v)) == sv2_items(*old(v)).take(len as int) && sv2_cap(*final(v)) == sv2_cap(*old(v)),
        len > sv2_items(*old(v)).len() ==> sv2_items(*final(v)).take(sv2_items(*old(v)).len() as int) == sv2_items(*old(v)),
        len > sv2_items(*old(v)).len() ==> sv2_cap(*final(v)) == reserved_cap(sv2_items(*old(v)).len(), sv2_cap(*old(v)), (len - sv2_items(*old(v)).len()) as nat),
{
    v.inner.resize_with(len, || any())
}

/// `SmallVec::shrink_to_fit`: back inline when the values fit, else exactly as many slots as values.
#[verifier::external_body]
pub(crate) fn sv2_shrink_to_fit(v: &mut SmallVec2)
    ensures
        sv2_items(*final(v)) == sv2_items(*old(v)),
        sv2_cap(*final(v)) == if sv2_items(*old(v)).len() <= 2 { 2 } else { sv2_items(*old(v)).len() },
{
    v.inner.shrink_to_fit()
}

/// `SmallVec::retain` keeping the even values, in order; the capacity stays.
#[verifier::external_body]
pub(crate) fn sv4_retain_even(v: &mut SmallVec4)
    ensures
        sv4_items(*final(v)) == sv4_items(*old(v)).filter(|x: u32| is_even(x)),
        sv4_cap(*final(v)) == sv4_cap(*old(v)),
{
    v.inner.retain(|x: &mut u32| even_u32(x))
}

/// `SmallVec::retain` keeping the odd values, in order; the capacity stays.
#[verifier::external_body]
pub(crate) fn sv4_retain_odd(v: &mut SmallVec4)
    ensures
        sv4_items(*final(v)) == sv4_items(*old(v)).filter(|x: u32| !is_even(x)),
        sv4_cap(*final(v)) == sv4_cap(*old(v)),
{
    v.inner.retain(|x: &mut u32| odd_u32(x))
}

/// `SmallVec::retain_mut` keeping the even values, in order; the capacity stays.
#[verifier::external_body]
pub(crate) fn sv4_retain_mut_even(v: &mut SmallVec4)
    ensures
        sv4_items(*final(v)) == sv4_items(*old(v)).filter(|x: u32| is_even(x)),
        sv4_cap(*final(v)) == sv4_cap(*old(v)),
{
    v.inner.retain_mut(|x: &mut u32| even_u32(x))
}

/// `SmallVec::retain_mut` keeping the odd values, in order; the capacity stays.
#[verifier::external_body]
pub(crate) fn sv4_retain_mut_odd(v: &mut SmallVec4)
    ensures
        sv4_items(*final(v)) == sv4_items(*old(v)).filter(|x: u32| !is_even(x)),
        sv4_cap(*final(v)) == sv4_cap(*old(v)),
{
    v.inner.retain_mut(|x: &mut u32| odd_u32(x))
}


#[verifier::external_type_specification]
#[verifier::external_body]
pub struct ExCollectionAllocErr(smallvec::CollectionAllocErr);

/// `SmallVec::try_grow`: nothing changes below the length; up to 4 the
/// values go back inline; beyond, exactly `new_cap` slots are allocated.
/// The values stay. An allocation can be refused (or its layout overflow):
/// then an error comes back and the vector is as it was. Which allocations
/// the allocator refuses is not stated.
#[verifier::external_body]
pub(crate) fn sv4_try_grow(v: &mut SmallVec4, new_cap: usize) -> (r: Result<(), smallvec::CollectionAllocErr>)
    ensures
        sv4_items(*final(v)) == sv4_items(*old(v)),
        r is Ok ==> sv4_cap(*final(v)) == (if new_cap < sv4_items(*old(v)).len() { sv4_cap(*old(v)) } else if new_cap <= 4 { 4 } else { new_cap as nat }),
        r is Err ==> sv4_cap(*final(v)) == sv4_cap(*old(v)),
        r is Err ==> (new_cap > 4 && new_cap >= sv4_items(*old(v)).len() && new_cap != sv4_cap(*old(v))),
{
    v.inner.try_grow(new_cap)
}

/// `SmallVec::try_reserve`: nothing changes when `additional` more values
/// fit; else the capacity grows to the power of two above the length plus
/// `additional`. The values stay. That growth can be refused (by an
/// overflow or the allocator): then an error comes back and the vector is
/// as it was. Which allocations the allocator refuses is not stated.
#[verifier::external_body]
pub(crate) fn sv8_try_reserve(v: &mut SmallVec8, additional: usize) -> (r: Result<(), smallvec::CollectionAllocErr>)
    ensures
        sv8_items(*final(v)) == sv8_items(*old(v)),
        sv8_cap(*old(v)) >= sv8_items(*old(v)).len() + additional ==> r is Ok,
        r is Ok ==> sv8_cap(*final(v)) == reserved_cap(sv8_items(*old(v)).len(), sv8_cap(*old(v)), additional as nat),
        r is Err ==> sv8_cap(*final(v)) == sv8_cap(*old(v)),
{
    v.inner.try_reserve(additional)
}

/// `SmallVec::try_reserve_exact`: nothing changes when `additional` more
/// values fit; else the capacity grows to exactly the length plus
/// `additional`. The values stay. That growth can be refused (by an
/// overflow or the allocator): then an error comes back and the vector is
/// as it was. Which allocations the allocator refuses is not stated.
#[verifier::external_body]
pub(crate) fn sv8_try_reserve_exact(v: &mut SmallVec8, additional: usize) -> (r: Result<(), smallvec::CollectionAllocErr>)
    ensures
        sv8_items(*final(v)) == sv8_items(*old(v)),
        sv8_cap(*old(v)) >= sv8_items(*old(v)).len() + additional ==> r is Ok,
        r is Ok ==> sv8_cap(*final(v)) == (if sv8_cap(*old(v)) >= sv8_items(*old(v)).len() + additional { sv8_cap(*old(v)) } else { (sv8_items(*old(v)).len() + additional) as nat }),
        r is Err ==> sv8_cap(*final(v)) == sv8_cap(*old(v)),
{
    v.inner.try_reserve_exact(additional)
}

} // verus!
