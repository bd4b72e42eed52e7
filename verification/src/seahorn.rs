//! Nondeterministic values: every harness draws its inputs through
//! [`any`], and what it proves holds whatever value comes back.
use vstd::prelude::*;
use std::collections::hash_map::RandomState;
use std::hash::BuildHasher;

verus! {

/// A type whose values a harness can draw without saying which.
pub trait Arbitrary where Self: Sized {
    /// Some value of the type; nothing is promised of which.
    fn any() -> Self;
}

/// `RandomState::new` of std: a hashing state with fresh random keys.
/// Nothing is stated of it.
#[verifier::external_body]
fn fresh_random_state() -> RandomState {
    RandomState::new()
}

/// `BuildHasher::hash_one` of std, applied to the byte 0: the hash under the
/// state's random keys. Nothing is stated of the result, which changes from
/// one state to the next.
#[verifier::external_body]
fn hash_zero(state: &RandomState) -> u64 {
    state.hash_one(0u8)
}

/// Sixty-four bits that no caller can predict.
fn nondet_bits() -> u64 {
    let state = fresh_random_state();
    hash_zero(&state)
}

impl Arbitrary for i8 {
    fn any() -> i8 {
        nondet_bits() as i8
    }
}

impl Arbitrary for u8 {
    fn any() -> u8 {
        nondet_bits() as u8
    }
}

impl Arbitrary for i16 {
    fn any() -> i16 {
        nondet_bits() as i16
    }
}

impl Arbitrary for u16 {
    fn any() -> u16 {
        nondet_bits() as u16
    }
}

impl Arbitrary for i32 {
    fn any() -> i32 {
        nondet_bits() as i32
    }
}

impl Arbitrary for u32 {
    fn any() -> u32 {
        nondet_bits() as u32
    }
}

impl Arbitrary for i64 {
    fn any() -> i64 {
        nondet_bits() as i64
    }
}

impl Arbitrary for u64 {
    fn any() -> u64 {
        nondet_bits()
    }
}

impl Arbitrary for bool {
    fn any() -> bool {
        nondet_bits() % 2 == 1
    }
}

impl Arbitrary for usize {
    fn any() -> usize {
        nondet_bits() as usize
    }
}

impl Arbitrary for isize {
    fn any() -> isize {
        nondet_bits() as isize
    }
}

/// Some value of type `T`, drawn anew at each call.
pub fn any<T: Arbitrary>() -> T {
    T::any()
}

} // verus!
