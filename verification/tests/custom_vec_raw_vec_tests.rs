use std::sync::atomic::{AtomicUsize, Ordering};
use verify_rust::custom_vec_raw_vec::{CustomVec, IntoIter};

#[test]
fn raw_push_pop_roundtrip() {
    let mut v: CustomVec<i32> = CustomVec::new();
    v.push(7);
    v.push(8);
    assert_eq!(v.pop(), Some(8));
    assert_eq!(v.pop(), Some(7));
    assert_eq!(v.pop(), None);
}

#[test]
fn raw_new_vector_is_empty() {
    let v: CustomVec<i32> = CustomVec::new();
    assert_eq!(v.deref().len(), 0);
}

#[test]
fn raw_insert_then_remove_gives_the_value_back() {
    let mut v: CustomVec<i32> = CustomVec::new();
    for i in 0..5 {
        v.push(i);
    }
    v.insert(2, -1);
    assert_eq!(v.deref(), &[0, 1, -1, 2, 3, 4]);
    assert_eq!(v.remove(2), -1);
    assert_eq!(v.deref(), &[0, 1, 2, 3, 4]);
}

#[test]
fn raw_insert_at_the_end_and_at_the_front() {
    let mut v: CustomVec<i32> = CustomVec::new();
    v.insert(0, 3);
    v.insert(1, 5);
    v.insert(0, 1);
    assert_eq!(v.deref(), &[1, 3, 5]);
    assert_eq!(v.remove(0), 1);
    assert_eq!(v.remove(1), 5);
    assert_eq!(v.deref(), &[3]);
}

#[test]
fn raw_deref_mut_writes_through() {
    let mut v: CustomVec<i32> = CustomVec::new();
    v.push(0);
    v.push(3);
    v.push(5);
    let slice = v.deref_mut();
    slice[0] = 10;
    slice[1] = 40;
    slice.sort();
    assert_eq!(v.pop(), Some(40));
    assert_eq!(v.pop(), Some(10));
    assert_eq!(v.pop(), Some(5));
    assert_eq!(v.pop(), None);
}

#[test]
fn raw_test_deref() {
    let mut v: CustomVec<i32> = CustomVec::new();
    for i in 0..6 {
        v.push(i);
    }
    for _ in 0..2 {
        let _ = v.pop();
    }
    v.push(1);
    let slice = v.deref();
    assert_eq!(slice.len(), 5);
    assert_eq!(slice[slice.len() - 1], 1);
}

#[test]
fn raw_into_iter_front_in_order() {
    let mut v: CustomVec<u32> = CustomVec::new();
    for i in 0..5 {
        v.push(i);
    }
    let mut iter: IntoIter<u32> = v.into_iter();
    for i in 0..5 {
        assert_eq!(iter.next(), Some(i));
    }
    assert_eq!(iter.next(), None);
}

#[test]
fn raw_into_iter_back_in_reverse() {
    let mut v: CustomVec<u32> = CustomVec::new();
    for i in 0..3 {
        v.push(i);
    }
    let mut iter: IntoIter<u32> = v.into_iter();
    for i in 0..3 {
        assert_eq!(iter.next_back(), Some(3 - i - 1));
    }
    assert_eq!(iter.next_back(), None);
}

#[test]
fn raw_into_iter_size_hint_counts_down() {
    let mut v: CustomVec<u32> = CustomVec::new();
    for i in 0..10 {
        v.push(i);
    }
    let mut iter = v.into_iter();
    assert_eq!(iter.size_hint(), (10, Some(10)));
    for i in 0..10u32 {
        if i % 2 == 0 {
            let _ = iter.next();
        } else {
            let _ = iter.next_back();
        }
        let size = (10 - i - 1) as usize;
        assert_eq!(iter.size_hint(), (size, Some(size)));
    }
}

#[test]
fn raw_empty_into_iter_yields_nothing() {
    let v: CustomVec<u8> = CustomVec::new();
    let mut iter = v.into_iter();
    assert_eq!(iter.size_hint(), (0, Some(0)));
    assert_eq!(iter.next(), None);
    assert_eq!(iter.next_back(), None);
}

static RAW_DROPS: AtomicUsize = AtomicUsize::new(0);

struct DropTest {
    _value: i32,
}

impl Drop for DropTest {
    fn drop(&mut self) {
        RAW_DROPS.fetch_add(1, Ordering::SeqCst);
    }
}

#[test]
fn raw_test_drop() {
    let original: usize = 5;
    let before = RAW_DROPS.load(Ordering::SeqCst);
    let mut v: CustomVec<DropTest> = CustomVec::new();
    for i in 0..original {
        v.push(DropTest { _value: i as i32 });
    }
    let _ = v.pop();
    let _ = v.pop();
    let _ = v.pop();
    drop(v);
    assert_eq!(RAW_DROPS.load(Ordering::SeqCst) - before, original);
}

static RAW_ITER_DROPS: AtomicUsize = AtomicUsize::new(0);

struct IterDropTest {
    _value: u32,
}

impl Drop for IterDropTest {
    fn drop(&mut self) {
        RAW_ITER_DROPS.fetch_add(1, Ordering::SeqCst);
    }
}

#[test]
fn raw_test_into_iter_drop() {
    let n: usize = 24;
    let mut v: CustomVec<IterDropTest> = CustomVec::new();
    for i in 0..n {
        v.push(IterDropTest { _value: i as u32 });
    }
    let iter = v.into_iter();
    assert_eq!(RAW_ITER_DROPS.load(Ordering::SeqCst), 0);
    drop(iter);
    assert_eq!(RAW_ITER_DROPS.load(Ordering::SeqCst), n);
}

#[test]
fn raw_harnesses_run() {
    for _ in 0..20 {
        verify_rust::custom_vec_raw_vec::test_new();
        verify_rust::custom_vec_raw_vec::test_deref();
        verify_rust::custom_vec_raw_vec::test_deref_mut();
        verify_rust::custom_vec_raw_vec::test_insert();
        verify_rust::custom_vec_raw_vec::test_into_iter_size();
        verify_rust::custom_vec_raw_vec::test_remove();
        verify_rust::custom_vec_raw_vec::test_into_iter_front();
        verify_rust::custom_vec_raw_vec::test_into_iter_back();
    }
}
