//! The Rustonomicon's vector once more, with the buffer split off into a
//! `RawVec` that owns the slots and knows only their number, and a
//! `CustomVec` that counts how many of them hold values.
use vstd::prelude::*;
use vstd::layout::size_of;
use crate::capacity::{grown_cap, fits_layout, lemma_grown_cap_bounded};
use crate::seahorn::any;
use crate::iter_steps::{rest_after_steps, count_fronts, lemma_rest_after_steps};
use crate::sorting::{sort_ints, ascending, lemma_int_leq_total};
use vstd::relations::sorted_by;
use vstd::seq_lib::lemma_sorted_unique;

verus! {

/// A buffer of `cap` slots; `ptr` holds the values of its initialised
/// prefix.
struct RawVec<T> {
    ptr: Vec<T>,
    cap: usize,
}

/// A vector over a [`RawVec`], of which the first `len` slots hold values.
pub struct CustomVec<T> {
    buf: RawVec<T>,
    len: usize,
}

/// The owning iterator of a [`CustomVec`]: the values between `start` and
/// `end` have not been yielded yet; `len` is the length of the vector it
/// came from.
pub struct IntoIter<T> {
    _buf: RawVec<T>,
    start: usize,
    end: usize,
    len: usize,
}

impl<T> RawVec<T> {
    /// The values of the initialised prefix fit in the slots, whose layout
    /// fits.
    spec fn well_formed(&self) -> bool {
        &&& self.ptr@.len() <= self.cap
        &&& size_of::<T>() > 0
        &&& fits_layout::<T>(self.cap as nat)
    }

    /// A buffer of no slots. Zero-sized types are refused.
    fn new() -> (b: Self)
        requires
            size_of::<T>() != 0,
        ensures
            b.well_formed(),
            b.ptr@ == Seq::<T>::empty(),
            b.cap == 0,
    {
        RawVec { ptr: Vec::new(), cap: 0 }
    }

    /// Grows to one slot when there is none, else to twice the slots; the
    /// values stay.
    fn grow(&mut self)
        requires
            old(self).well_formed(),
            fits_layout::<T>(grown_cap(old(self).cap as nat)),
        ensures
            final(self).well_formed(),
            final(self).ptr@ == old(self).ptr@,
            final(self).cap == grown_cap(old(self).cap as nat),
    {
        proof {
            lemma_grown_cap_bounded::<T>(self.cap as nat);
        }
        let new_cap: usize = if self.cap == 0 {
            1
        } else {
            2 * self.cap
        };
        let held: usize = self.ptr.len();
        self.ptr.reserve(new_cap - held);
        self.cap = new_cap;
    }
}

impl<T> View for CustomVec<T> {
    type V = Seq<T>;

    closed spec fn view(&self) -> Seq<T> {
        self.buf.ptr@
    }
}

impl<T> View for IntoIter<T> {
    type V = Seq<T>;

    closed spec fn view(&self) -> Seq<T> {
        self._buf.ptr@
    }
}

impl<T> CustomVec<T> {
    /// The number of slots of the buffer.
    pub closed spec fn cap_spec(&self) -> nat {
        self.buf.cap as nat
    }

    /// The buffer is well formed and its first `len` slots hold the values.
    pub closed spec fn well_formed(&self) -> bool {
        &&& self.buf.well_formed()
        &&& self.buf.ptr@.len() == self.len
    }

    /// The number of slots of the buffer.
    fn cap(&self) -> (c: usize)
        ensures
            c == self.cap_spec(),
    {
        self.buf.cap
    }

    /// An empty vector with no buffer. Zero-sized types are refused.
    pub fn new() -> (v: Self)
        requires
            size_of::<T>() != 0,
        ensures
            v.well_formed(),
            v@ == Seq::<T>::empty(),
            v.cap_spec() == 0,
    {
        CustomVec { buf: RawVec::new(), len: 0 }
    }

    /// Appends `elem`, growing the buffer first when it is full.
    pub fn push(&mut self, elem: T)
        requires
            old(self).well_formed(),
            old(self)@.len() == old(self).cap_spec() ==> fits_layout::<T>(
                grown_cap(old(self).cap_spec()),
            ),
        ensures
            final(self).well_formed(),
            final(self)@ == old(self)@.push(elem),
            final(self).cap_spec() == if old(self)@.len() == old(self).cap_spec() {
                grown_cap(old(self).cap_spec())
            } else {
                old(self).cap_spec()
            },
    {
        if self.len == self.cap() {
            self.buf.grow();
        }
        self.buf.ptr.push(elem);
        self.len = self.len + 1;
    }

    /// Removes and returns the last value, or `None` when there is none.
    pub fn pop(&mut self) -> (r: Option<T>)
        requires
            old(self).well_formed(),
        ensures
            final(self).well_formed(),
            final(self).cap_spec() == old(self).cap_spec(),
            old(self)@.len() == 0 ==> r is None && final(self)@ == old(self)@,
            old(self)@.len() > 0 ==> r == Some(old(self)@.last()) && final(self)@
                == old(self)@.drop_last(),
    {
        if self.len == 0 {
            None
        } else {
            self.len = self.len - 1;
            self.buf.ptr.pop()
        }
    }

    /// Inserts `elem` at `index`, shifting the values from `index` on one
    /// slot to the right; grows the buffer first when it is full.
    pub fn insert(&mut self, index: usize, elem: T)
        requires
            old(self).well_formed(),
            index <= old(self)@.len(),
            old(self)@.len() == old(self).cap_spec() ==> fits_layout::<T>(
                grown_cap(old(self).cap_spec()),
            ),
        ensures
            final(self).well_formed(),
            final(self)@ == old(self)@.insert(index as int, elem),
            final(self).cap_spec() == if old(self)@.len() == old(self).cap_spec() {
                grown_cap(old(self).cap_spec())
            } else {
                old(self).cap_spec()
            },
    {
        if self.cap() == self.len {
            self.buf.grow();
        }
        self.buf.ptr.insert(index, elem);
        self.len = self.len + 1;
    }

    /// Removes and returns the value at `index`, shifting the values after
    /// it one slot to the left.
    pub fn remove(&mut self, index: usize) -> (r: T)
        requires
            old(self).well_formed(),
            index < old(self)@.len(),
        ensures
            final(self).well_formed(),
            final(self).cap_spec() == old(self).cap_spec(),
            r == old(self)@[index as int],
            final(self)@ == old(self)@.remove(index as int),
    {
        self.len = self.len - 1;
        self.buf.ptr.remove(index)
    }

    /// The values, as a slice.
    pub fn deref(&self) -> (s: &[T])
        requires
            self.well_formed(),
        ensures
            s@ == self@,
    {
        self.buf.ptr.as_slice()
    }

    /// The values, as a mutable slice: what is written through it is what
    /// the vector holds afterwards.
    pub fn deref_mut(&mut self) -> (s: &mut [T])
        requires
            old(self).well_formed(),
        ensures
            s@ == old(self)@,
            final(s)@.len() == old(self)@.len() ==> final(self).well_formed(),
            final(self)@ == final(s)@,
            final(self).cap_spec() == old(self).cap_spec(),
    {
        self.buf.ptr.as_mut_slice()
    }

    /// Turns the vector into an iterator over its values, first to last.
    pub fn into_iter(self) -> (it: IntoIter<T>)
        requires
            self.well_formed(),
        ensures
            it.well_formed(),
            it@ == self@,
            it.len_spec() == self@.len(),
    {
        let len = self.len;
        let buf = self.buf;
        let end: usize = if buf.cap == 0 {
            0
        } else {
            len
        };
        IntoIter { start: 0, end: end, _buf: buf, len: len }
    }
}

impl<T> IntoIter<T> {
    /// The length of the vector the iterator came from.
    pub closed spec fn len_spec(&self) -> nat {
        self.len as nat
    }

    /// The values not yet yielded lie between `start` and `end`, within the
    /// values of the vector the iterator came from.
    pub closed spec fn well_formed(&self) -> bool {
        &&& self.start <= self.end <= self.len <= self._buf.cap
        &&& self._buf.ptr@.len() == self.end - self.start
    }

    /// Yields the first value not yet yielded, or `None` when there is none.
    pub fn next(&mut self) -> (r: Option<T>)
        requires
            old(self).well_formed(),
        ensures
            final(self).well_formed(),
            final(self).len_spec() == old(self).len_spec(),
            old(self)@.len() == 0 ==> r is None && final(self)@ == old(self)@,
            old(self)@.len() > 0 ==> r == Some(old(self)@[0]) && final(self)@
                == old(self)@.drop_first(),
    {
        if self.start == self.end {
            None
        } else {
            let result = self._buf.ptr.remove(0);
            self.start = self.start + 1;
            Some(result)
        }
    }

    /// The number of values not yet yielded, as lower and upper bound.
    pub fn size_hint(&self) -> (r: (usize, Option<usize>))
        requires
            self.well_formed(),
        ensures
            r.0 == self@.len(),
            r.1 == Some(self@.len() as usize),
    {
        let len = self.end - self.start;
        (len, Some(len))
    }

    /// Yields the last value not yet yielded, or `None` when there is none.
    pub fn next_back(&mut self) -> (r: Option<T>)
        requires
            old(self).well_formed(),
        ensures
            final(self).well_formed(),
            final(self).len_spec() == old(self).len_spec(),
            old(self)@.len() == 0 ==> r is None && final(self)@ == old(self)@,
            old(self)@.len() > 0 ==> r == Some(old(self)@.last()) && final(self)@
                == old(self)@.drop_last(),
    {
        if self.start == self.end {
            None
        } else {
            self.end = self.end - 1;
            self._buf.ptr.pop()
        }
    }
}

/// Every vector holds at most as many values as its buffer has slots, and
/// the buffer's layout fits: `new` makes such a vector and every operation
/// keeps it so.
pub proof fn law_len_within_cap<T>(v: CustomVec<T>)
    requires
        v.well_formed(),
    ensures
        v@.len() <= v.cap_spec(),
        fits_layout::<T>(v.cap_spec()),
{
}

/// Popping right after pushing `x` gives `x` back and leaves the values as
/// they were before the push.
pub proof fn law_pop_undoes_push<T>(v: CustomVec<T>, x: T)
    ensures
        v@.push(x).len() > 0,
        v@.push(x).last() == x,
        v@.push(x).drop_last() == v@,
{
    assert(v@.push(x).drop_last() =~= v@);
}

/// Removing at the index just inserted at gives the inserted value back and
/// leaves the values as they were before the insertion.
pub proof fn law_remove_undoes_insert<T>(v: CustomVec<T>, index: int, x: T)
    requires
        0 <= index <= v@.len(),
    ensures
        index < v@.insert(index, x).len(),
        v@.insert(index, x)[index] == x,
        v@.insert(index, x).remove(index) == v@,
{
    assert(v@.insert(index, x).remove(index) =~= v@);
}

/// Taken from the front, an iterator yields its values first to last: after
/// `k` calls of `next`, the next value is the one at `k` and what remains is
/// everything after it.
pub proof fn law_next_in_order<T>(it: IntoIter<T>, k: int)
    requires
        0 <= k < it@.len(),
    ensures
        it@.skip(k).len() > 0,
        it@.skip(k)[0] == it@[k],
        it@.skip(k).drop_first() == it@.skip(k + 1),
{
    assert(it@.skip(k).drop_first() =~= it@.skip(k + 1));
}

/// Taken from the back, an iterator yields its values last to first: after
/// `k` calls of `next_back`, the next value is the `k`-th from the end and
/// what remains is everything before it.
pub proof fn law_next_back_in_reverse<T>(it: IntoIter<T>, k: int)
    requires
        0 <= k < it@.len(),
    ensures
        it@.take(it@.len() - k).len() > 0,
        it@.take(it@.len() - k).last() == it@[it@.len() - 1 - k],
        it@.take(it@.len() - k).drop_last() == it@.take(it@.len() - k - 1),
{
    assert(it@.take(it@.len() - k).drop_last() =~= it@.take(it@.len() - k - 1));
}

/// `size_hint` after any run of `next` and `next_back` calls counts the
/// values not yet yielded from either end. `iters` are the iterator before
/// the calls and after each of them, and `steps` says which end each call
/// took from (`true` for `next`, `false` for `next_back`): each call leaves
/// what its contract says, and there are no more calls than values. Then
/// the last iterator holds the values between those taken from the front
/// and those taken from the back, one fewer for each call, and that count
/// is what `size_hint` reports of it.
pub proof fn law_size_hint_after_steps<T>(iters: Seq<IntoIter<T>>, steps: Seq<bool>)
    requires
        iters.len() == steps.len() + 1,
        steps.len() <= iters[0]@.len(),
        forall|i: int| 0 <= i < steps.len() ==> (if #[trigger] steps[i] {
            iters[i + 1]@ == iters[i]@.drop_first()
        } else {
            iters[i + 1]@ == iters[i]@.drop_last()
        }),
    ensures
        iters.last()@ == rest_after_steps(iters[0]@, steps),
        iters.last()@ == iters[0]@.subrange(
            count_fronts(steps) as int,
            iters[0]@.len() - (steps.len() - count_fronts(steps)),
        ),
        iters.last()@.len() == iters[0]@.len() - steps.len(),
    decreases steps.len(),
{
    lemma_rest_after_steps(iters[0]@, steps);
    if steps.len() > 0 {
        let prev_iters = iters.drop_last();
        let prev_steps = steps.drop_last();
        assert forall|i: int| 0 <= i < prev_steps.len() implies (if #[trigger] prev_steps[i] {
            prev_iters[i + 1]@ == prev_iters[i]@.drop_first()
        } else {
            prev_iters[i + 1]@ == prev_iters[i]@.drop_last()
        }) by {
            assert(steps[i] == prev_steps[i]);
        }
        law_size_hint_after_steps(prev_iters, prev_steps);
        let k = steps.len() - 1;
        assert(steps[k] == steps.last());
        assert(iters[k] == prev_iters.last());
    }
}

/// Taken from either end in any order, an iterator never yields a value
/// twice: after `steps` (`true` for a call of `next`, `false` for one of
/// `next_back`) the values left are those between the ones taken from the
/// front and the ones taken from the back, and `size_hint`, which reports
/// the length of what is left, counts one fewer after each step.
pub proof fn law_steps_leave_the_middle<T>(it: IntoIter<T>, steps: Seq<bool>)
    requires
        steps.len() <= it@.len(),
    ensures
        rest_after_steps(it@, steps) == it@.subrange(
            count_fronts(steps) as int,
            it@.len() - (steps.len() - count_fronts(steps)),
        ),
        rest_after_steps(it@, steps).len() == it@.len() - steps.len(),
{
    lemma_rest_after_steps(it@, steps);
}

/// Whether `vec` is as `new` leaves it: no values and no buffer.
fn custom_vec_valid_after_init<T>(vec: &CustomVec<T>) -> (r: bool)
    requires
        vec.well_formed(),
    ensures
        r == (vec@.len() == 0 && vec.cap_spec() == 0),
{
    vec.len == 0 && vec.buf.cap == 0
}


/// A vector of `n` zeros whose buffer has exactly `n` slots.
fn zeros_with_exact_cap(n: usize) -> (v: CustomVec<i32>)
    requires
        fits_layout::<i32>(n as nat),
    ensures
        v.well_formed(),
        v@.len() == n,
        v.cap_spec() == n,
{
    broadcast use vstd::layout::layout_of_primitives;

    let mut elems: Vec<i32> = Vec::new();
    let mut i: usize = 0;
    while i < n
        invariant
            i <= n,
            elems@.len() == i,
        decreases n - i,
    {
        elems.push(0);
        i = i + 1;
    }
    CustomVec { buf: RawVec { ptr: elems, cap: n }, len: n }
}

/// `count` pushes of 0, 1, 2, ... onto `v`.
fn push_counting(v: &mut CustomVec<i32>, count: usize)
    requires
        old(v).well_formed(),
        old(v)@.len() == 0,
        count <= (isize::MAX as usize) / 8,
        count <= i32::MAX as usize,
    ensures
        final(v).well_formed(),
        final(v)@.len() == count,
        forall|k: int| 0 <= k < count ==> #[trigger] final(v)@[k] == k,
{
    broadcast use vstd::layout::layout_of_primitives;

    let mut i: usize = 0;
    while i < count
        invariant
            i <= count <= (isize::MAX as usize) / 8,
            count <= i32::MAX as usize,
            v.well_formed(),
            v@.len() == i,
            forall|k: int| 0 <= k < i ==> #[trigger] v@[k] == k,
        decreases count - i,
    {
        v.push(i as i32);
        i = i + 1;
    }
}

/// A new vector holds nothing and has no buffer.
pub fn test_new() {
    broadcast use vstd::layout::layout_of_primitives;

    let v: CustomVec<i32> = CustomVec::new();
    let valid: bool = custom_vec_valid_after_init(&v);
    assert(valid);
    assert(v@.len() == 0);
    let cap: usize = v.cap();
    assert(cap == 0);
}

/// Growing a full buffer of any size doubles it, and growing an empty one
/// gives it one slot; the values stay.
pub fn test_grow() {
    broadcast use vstd::layout::layout_of_primitives;

    let original: usize = any();
    let mut v: CustomVec<i32> = CustomVec::new();
    let valid: bool = custom_vec_valid_after_init(&v);
    assert(valid);
    // a doubled buffer of more than `isize::MAX` bytes has no layout
    if !(original <= (isize::MAX as usize) / 8) {
        return;
    }
    v = zeros_with_exact_cap(original);
    v.buf.grow();
    let cap: usize = v.cap();
    if original == 0 {
        assert(cap == 1);
    } else {
        assert(cap == 2 * original);
    }
    assert(v@.len() == original);
}

/// Popping from a vector of `original` values in a doubled buffer leaves
/// one value less and the buffer as it is.
pub fn test_pop() {
    broadcast use vstd::layout::layout_of_primitives;

    let original: usize = any();
    if !(original > 0) {
        return;
    }
    let mut v: CustomVec<i32> = CustomVec::new();
    let valid: bool = custom_vec_valid_after_init(&v);
    assert(valid);
    // a doubled buffer of more than `isize::MAX` bytes has no layout
    if !(original <= (isize::MAX as usize) / 8) {
        return;
    }
    v = zeros_with_exact_cap(original);
    v.buf.grow();
    let _ = v.pop();
    assert(v@.len() == original - 1);
    let cap: usize = v.cap();
    assert(cap == original * 2);
}

/// Pushing onto a vector of `original` values in a doubled buffer adds one
/// value and leaves the buffer as it is.
pub fn test_push() {
    broadcast use vstd::layout::layout_of_primitives;

    let original: usize = any();
    if !(original > 0) {
        return;
    }
    let mut v: CustomVec<i32> = CustomVec::new();
    let valid: bool = custom_vec_valid_after_init(&v);
    assert(valid);
    // a doubled buffer of more than `isize::MAX` bytes has no layout
    if !(original <= (isize::MAX as usize) / 8) {
        return;
    }
    v = zeros_with_exact_cap(original);
    v.buf.grow();
    v.push(0);
    assert(v@.len() == original + 1);
    let cap: usize = v.cap();
    assert(cap == original * 2);
}

/// After `original` pushes, `num_pops` pops and a push of 1, the slice
/// holds `original - num_pops + 1` values and ends in 1.
pub fn test_deref() {
    broadcast use vstd::layout::layout_of_primitives;

    let original: usize = any();
    let num_pops: usize = any();
    if !(num_pops <= original) {
        return;
    }
    // a doubled buffer of more than `isize::MAX` bytes has no layout
    if !(original <= (isize::MAX as usize) / 8) {
        return;
    }
    // the values pushed are converted to `i32`, which fails beyond its range
    if !(original <= i32::MAX as usize) {
        return;
    }
    let mut v: CustomVec<i32> = CustomVec::new();
    push_counting(&mut v, original);
    let mut j: usize = 0;
    while j < num_pops
        invariant
            j <= num_pops <= original <= (isize::MAX as usize) / 8,
            v.well_formed(),
            v@.len() == original - j,
        decreases num_pops - j,
    {
        let _ = v.pop();
        j = j + 1;
    }
    v.push(1);
    let slice: &[i32] = v.deref();
    assert(slice@.len() == original - num_pops + 1);
    let last: i32 = slice[slice.len() - 1];
    assert(last == 1);
}

/// Writing 10 and 40 over the first two of 0, 3, 5 through the slice and
/// sorting it leaves 5, 10, 40, popped from the back.
pub fn test_deref_mut() {
    broadcast use vstd::layout::layout_of_primitives;

    let mut v: CustomVec<i32> = CustomVec::new();
    v.push(0);
    v.push(3);
    v.push(5);
    let slice: &mut [i32] = v.deref_mut();
    let length: usize = slice.len();
    slice[0] = 10;
    slice[1] = 40;
    let ghost before = slice@;
    sort_ints(slice);
    proof {
        let s = seq![5i32, 10i32, 40i32];
        assert(before =~= seq![10i32, 40i32, 5i32]);
        lemma_int_leq_total();
        assert(s.to_multiset() =~= seq![10i32, 40i32, 5i32].to_multiset()) by {
            broadcast use vstd::seq_lib::group_to_multiset_ensures;
            broadcast use vstd::multiset::group_multiset_axioms;
            assert(seq![5i32, 10i32, 40i32] =~= seq![5i32].push(10i32).push(40i32));
            assert(seq![10i32, 40i32, 5i32] =~= seq![10i32].push(40i32).push(5i32));
            assert(seq![5i32] =~= Seq::<i32>::empty().push(5i32));
            assert(seq![10i32] =~= Seq::<i32>::empty().push(10i32));
        }
        assert(sorted_by(s, ascending()));
        lemma_sorted_unique(s, slice@, ascending());
    }
    assert(length == 3);
    let a = v.pop();
    assert(a == Some(40i32));
    let b = v.pop();
    assert(b == Some(10i32));
    let c = v.pop();
    assert(c == Some(5i32));
    assert(v@.len() == 0);
}

/// Inserting -1 at any index up to the length of a vector of ones puts -1
/// at that index.
pub fn test_insert() {
    broadcast use vstd::layout::layout_of_primitives;

    let mut v: CustomVec<i32> = CustomVec::new();
    let n: usize = any();
    let index: usize = any();
    if !(index <= n) {
        return;
    }
    // a doubled buffer of more than `isize::MAX` bytes has no layout
    if !(n <= (isize::MAX as usize) / 8) {
        return;
    }
    let mut i: usize = 0;
    while i < n
        invariant
            i <= n <= (isize::MAX as usize) / 8,
            v.well_formed(),
            v@.len() == i,
        decreases n - i,
    {
        v.push(1);
        i = i + 1;
    }
    v.insert(index, -1);
    let slice: &mut [i32] = v.deref_mut();
    let at: i32 = slice[index];
    assert(at == -1);
}

/// Removing the value at an index of a vector of 0, 1, 2, ... returns the
/// index.
pub fn test_remove() {
    broadcast use vstd::layout::layout_of_primitives;

    let mut v: CustomVec<i32> = CustomVec::new();
    let n: usize = any();
    if !(n < 10) {
        return;
    }
    let index: usize = any();
    if !(index <= n) {
        return;
    }
    // removing at the length is out of bounds
    if !(index < n) {
        return;
    }
    push_counting(&mut v, n);
    let res: i32 = v.remove(index);
    assert(res == index as i32);
}

/// The iterator over 0, ..., 4 yields them in order from the front.
pub fn test_into_iter_front() {
    broadcast use vstd::layout::layout_of_primitives;

    let n: u32 = 5;
    let mut v: CustomVec<u32> = CustomVec::new();
    for i in 0..n
        invariant
            n == 5,
            v.well_formed(),
            v@.len() == i,
            v.cap_spec() <= 8,
            forall|k: int| 0 <= k < i ==> #[trigger] v@[k] == k,
    {
        v.push(i);
    }
    let mut iter: IntoIter<u32> = v.into_iter();
    for i in 0..n
        invariant
            n == 5,
            iter.well_formed(),
            iter@.len() == n - i,
            forall|k: int| 0 <= k < iter@.len() ==> #[trigger] iter@[k] == k + i,
    {
        let r = iter.next();
        assert(r == Some(i));
    }
}

/// The iterator over 0, ..., 4 yields them in reverse from the back.
pub fn test_into_iter_back() {
    broadcast use vstd::layout::layout_of_primitives;

    let n: u32 = 5;
    let mut v: CustomVec<u32> = CustomVec::new();
    for i in 0..n
        invariant
            n == 5,
            v.well_formed(),
            v@.len() == i,
            v.cap_spec() <= 8,
            forall|k: int| 0 <= k < i ==> #[trigger] v@[k] == k,
    {
        v.push(i);
    }
    let mut iter: IntoIter<u32> = v.into_iter();
    for i in 0..n
        invariant
            n == 5,
            iter.well_formed(),
            iter@.len() == n - i,
            forall|k: int| 0 <= k < iter@.len() ==> #[trigger] iter@[k] == k,
    {
        let r = iter.next_back();
        let expected: u32 = n - i - 1;
        assert(r == Some(expected));
    }
}

/// Taking values from either end of the iterator over ten values, in any
/// order, leaves one value less each time.
pub fn test_into_iter_size() {
    broadcast use vstd::layout::layout_of_primitives;

    let n: u32 = 10;
    let mut v: CustomVec<u32> = CustomVec::new();
    for i in 0..n
        invariant
            n == 10,
            v.well_formed(),
            v@.len() == i,
            v.cap_spec() <= 20,
    {
        v.push(i);
    }
    let mut iter: IntoIter<u32> = v.into_iter();
    let ghost start = iter@;
    let ghost mut steps: Seq<bool> = Seq::empty();
    for i in 0..n
        invariant
            n == 10,
            start.len() == n,
            iter.well_formed(),
            steps.len() == i,
            iter@ == rest_after_steps(start, steps),
    {
        proof {
            lemma_rest_after_steps(start, steps);
        }
        let front: bool = any();
        if front {
            let _ = iter.next();
        } else {
            let _ = iter.next_back();
        }
        proof {
            let prev = steps;
            steps = steps.push(front);
            assert(steps.drop_last() =~= prev);
            lemma_rest_after_steps(start, steps);
        }
        let size: usize = (n - i - 1) as usize;
        let hint = iter.size_hint();
        assert(hint.0 == size);
    }
}

/// Runs the harnesses of this vector.
pub fn entrypt() {
    test_new();
    test_grow();
    test_pop();
    test_push();
    test_deref();
    test_deref_mut();
    test_insert();
    test_remove();
    test_into_iter_front();
    test_into_iter_back();
    test_into_iter_size();
}

} // verus!
