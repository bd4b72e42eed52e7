use borsh::{BorshDeserialize, BorshSerialize};
use smallvec::SmallVec;
use tinyvec::ArrayVec;

#[test]
fn borsh_writes_little_endian_integers() {
    assert_eq!(42u32.try_to_vec().unwrap(), vec![42, 0, 0, 0]);
    assert_eq!((-1i16).try_to_vec().unwrap(), vec![0xff, 0xff]);
    assert_eq!(0x0102_0304_0506_0708u64.try_to_vec().unwrap(), vec![8, 7, 6, 5, 4, 3, 2, 1]);
    assert_eq!((-2i64).try_to_vec().unwrap(), vec![0xfe, 0xff, 0xff, 0xff, 0xff, 0xff, 0xff, 0xff]);
    assert_eq!(7usize.try_to_vec().unwrap(), vec![7, 0, 0, 0, 0, 0, 0, 0]);
    assert_eq!(i32::from_le_bytes([1, 0, 0, 0]), 1);
    assert_eq!(i32::try_from_slice(&[0xff, 0xff, 0xff, 0xff]).unwrap(), -1);
}

#[test]
fn borsh_refuses_slices_of_the_wrong_length() {
    assert!(u32::try_from_slice(&[1, 2, 3]).is_err());
    assert!(u32::try_from_slice(&[1, 2, 3, 4, 5]).is_err());
    assert!(u8::try_from_slice(&[]).is_err());
    assert!(<()>::try_from_slice(&[0]).is_err());
    assert!(<()>::try_from_slice(&[]).is_ok());
}

#[test]
fn borsh_writes_bool_as_one_byte() {
    assert_eq!(true.try_to_vec().unwrap(), vec![1]);
    assert_eq!(false.try_to_vec().unwrap(), vec![0]);
    assert_eq!(bool::try_from_slice(&[1]).unwrap(), true);
    assert_eq!(bool::try_from_slice(&[0]).unwrap(), false);
    assert!(bool::try_from_slice(&[2]).is_err());
}

#[test]
fn borsh_writes_options_with_a_tag() {
    assert_eq!(None::<u32>.try_to_vec().unwrap(), vec![0]);
    assert_eq!(Some(5u32).try_to_vec().unwrap(), vec![1, 5, 0, 0, 0]);
    assert_eq!(Some(9u8).try_to_vec().unwrap(), vec![1, 9]);
    assert_eq!(Option::<u32>::try_from_slice(&[1, 5, 0, 0, 0]).unwrap(), Some(5));
    assert_eq!(Option::<u8>::try_from_slice(&[0]).unwrap(), None);
    assert!(Option::<u8>::try_from_slice(&[2, 1]).is_err());
    assert!(Option::<u8>::try_from_slice(&[0, 1]).is_err());
}

#[test]
fn borsh_writes_tuples_arrays_and_strings_in_order() {
    let t: (i64, u8, bool, ()) = (3, 4, true, ());
    assert_eq!(t.try_to_vec().unwrap(), vec![3, 0, 0, 0, 0, 0, 0, 0, 4, 1]);
    let a: [i32; 3] = [0, 0, 7];
    assert_eq!(a.try_to_vec().unwrap(), vec![0, 0, 0, 0, 0, 0, 0, 0, 7, 0, 0, 0]);
    assert_eq!(String::from("abc").try_to_vec().unwrap(), vec![3, 0, 0, 0, b'a', b'b', b'c']);
    assert_eq!(String::try_from_slice(&[2, 0, 0, 0, b'h', b'i']).unwrap(), "hi");
    assert!(String::try_from_slice(&[2, 0, 0, 0, 0xff, 0xfe]).is_err());
}

#[test]
fn arrayvec_capacity_is_the_array_length_capped_at_u16_max() {
    let v: ArrayVec<[u32; 4]> = ArrayVec::new();
    assert_eq!(v.capacity(), 4);
    let big: Box<ArrayVec<[u32; 65536]>> = Box::new(ArrayVec::new());
    assert_eq!(big.capacity(), 65535);
}

#[test]
fn arrayvec_try_operations_hand_back_what_does_not_fit() {
    let mut v: ArrayVec<[u32; 4]> = ArrayVec::new();
    for i in 0..4 {
        assert_eq!(v.try_push(i), None);
    }
    assert_eq!(v.try_push(9), Some(9));
    assert_eq!(v.try_insert(1, 9), Some(9));
    assert_eq!(v.as_slice(), &[0, 1, 2, 3]);
    let mut w: ArrayVec<[u32; 4]> = ArrayVec::new();
    w.push(8);
    assert!(v.try_append(&mut w).is_some());
    assert_eq!(w.as_slice(), &[8]);
    let _ = v.pop();
    assert!(v.try_append(&mut w).is_none());
    assert_eq!(v.as_slice(), &[0, 1, 2, 8]);
    assert_eq!(w.len(), 0);
}

#[test]
fn arrayvec_fill_stops_at_the_capacity() {
    let mut v: ArrayVec<[u32; 4]> = ArrayVec::new();
    v.push(7);
    let _ = v.fill(0..10);
    assert_eq!(v.as_slice(), &[7, 0, 1, 2]);
}

#[test]
fn arrayvec_splice_and_drain_take_out_a_range() {
    let mut v: ArrayVec<[u32; 4]> = ArrayVec::new();
    v.extend_from_slice(&[1, 2, 3, 4]);
    let out: ArrayVec<[u32; 4]> = v.splice(1..3, 10..12).collect();
    assert_eq!(out.as_slice(), &[2, 3]);
    assert_eq!(v.as_slice(), &[1, 10, 11, 4]);
    let out: ArrayVec<[u32; 4]> = v.splice(1..3, 20..21).collect();
    assert_eq!(out.as_slice(), &[10, 11]);
    assert_eq!(v.as_slice(), &[1, 20, 4]);
    let out: ArrayVec<[u32; 4]> = v.drain(1..).collect();
    assert_eq!(out.as_slice(), &[20, 4]);
    assert_eq!(v.as_slice(), &[1]);
}

#[test]
fn arrayvec_removals_and_splits() {
    let mut v: ArrayVec<[u32; 4]> = ArrayVec::new();
    v.extend_from_slice(&[1, 2, 3, 4]);
    assert_eq!(v.swap_remove(0), 1);
    assert_eq!(v.as_slice(), &[4, 2, 3]);
    assert_eq!(v.remove(1), 2);
    assert_eq!(v.as_slice(), &[4, 3]);
    let tail = v.split_off(1);
    assert_eq!(v.as_slice(), &[4]);
    assert_eq!(tail.as_slice(), &[3]);
    v.resize(3, 6);
    assert_eq!(v.as_slice(), &[4, 6, 6]);
    v.set_len(1);
    assert_eq!(v.as_slice(), &[4]);
}

#[test]
fn arrayvec_from_arrays() {
    assert_eq!(ArrayVec::from_array_len([5u32, 6, 7, 8, 9, 10, 11, 12], 3).as_slice(), &[5, 6, 7]);
    assert_eq!(ArrayVec::from_array_empty([5u32; 8]).len(), 0);
    assert!(ArrayVec::try_from_array_len([1u32; 8], 9).is_err());
    assert_eq!(ArrayVec::try_from_array_len([1u32; 8], 8).unwrap().len(), 8);
}

#[test]
fn arrayvec_retain_keeps_order() {
    let mut v: ArrayVec<[u32; 4]> = ArrayVec::new();
    v.extend_from_slice(&[1, 2, 3, 4]);
    v.retain(|x| x % 2 == 0);
    assert_eq!(v.as_slice(), &[2, 4]);
}

#[test]
fn smallvec_push_grows_to_a_power_of_two() {
    let mut v: SmallVec<[u32; 4]> = SmallVec::new();
    assert_eq!(v.capacity(), 4);
    for i in 0..5 {
        v.push(i);
    }
    assert_eq!(v.capacity(), 8);
    let mut w: SmallVec<[u32; 2]> = SmallVec::new();
    for i in 0..3 {
        w.push(i);
    }
    assert_eq!(w.capacity(), 4);
}

#[test]
fn smallvec_reserve_rounds_up_and_reserve_exact_does_not() {
    let mut v: SmallVec<[u32; 8]> = SmallVec::new();
    v.reserve(9);
    assert_eq!(v.capacity(), 16);
    let mut w: SmallVec<[u32; 8]> = SmallVec::new();
    w.reserve_exact(9);
    assert_eq!(w.capacity(), 9);
    let mut x: SmallVec<[u32; 8]> = SmallVec::new();
    assert!(x.try_reserve(100).is_ok());
    assert_eq!(x.capacity(), 128);
    let mut y: SmallVec<[u32; 8]> = SmallVec::new();
    assert!(y.try_reserve_exact(100).is_ok());
    assert_eq!(y.capacity(), 100);
}

#[test]
fn smallvec_try_grow_below_the_length_changes_nothing() {
    let mut v: SmallVec<[u32; 4]> = SmallVec::new();
    for i in 0..3 {
        v.push(i);
    }
    assert!(v.try_grow(6).is_ok());
    assert_eq!(v.capacity(), 6);
    assert!(v.try_grow(1).is_ok());
    assert_eq!(v.capacity(), 6);
    assert_eq!(v.as_slice(), &[0, 1, 2]);
    assert!(v.try_grow(3).is_ok());
    assert_eq!(v.capacity(), 4);
    assert_eq!(v.as_slice(), &[0, 1, 2]);
}

#[test]
fn smallvec_dedup_removes_consecutive_duplicates() {
    let mut v: SmallVec<[u32; 8]> = SmallVec::new();
    v.extend_from_slice(&[1, 1, 2, 2, 1, 3, 3]);
    v.dedup();
    assert_eq!(v.as_slice(), &[1, 2, 1, 3]);
}
