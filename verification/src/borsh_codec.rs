//! The Borsh binary format of the values the harnesses round-trip:
//! fixed-width integers as little-endian bytes, `bool` as one byte 0 or 1,
//! `()` as nothing, `Option` as a tag byte and the value, tuples and arrays
//! as their parts in order, strings as a four-byte length and their UTF-8
//! bytes. Encoding and decoding are borsh's own; what they produce and
//! accept is stated here.
use vstd::prelude::*;
use vstd::utf8::{encode_utf8, decode_utf8, valid_utf8};
use borsh::{BorshDeserialize, BorshSerialize};

verus! {

#[verifier::external_type_specification]
#[verifier::external_body]
pub struct ExIoError(std::io::Error);

/// 256 to the power `n`: the number of values that `n` bytes hold.
pub open spec fn pow256(n: nat) -> nat
    decreases n,
{
    if n == 0 {
        1
    } else {
        256 * pow256((n - 1) as nat)
    }
}

/// The `n` little-endian bytes of `v`, in two's complement when `v` is
/// negative.
pub open spec fn le_bytes(v: int, n: nat) -> Seq<u8>
    decreases n,
{
    if n == 0 {
        Seq::empty()
    } else {
        seq![(v % 256) as u8] + le_bytes(v / 256, (n - 1) as nat)
    }
}

/// The unsigned number that little-endian bytes spell.
pub open spec fn le_value(b: Seq<u8>) -> nat
    decreases b.len(),
{
    if b.len() == 0 {
        0
    } else {
        b[0] as nat + 256 * le_value(b.drop_first())
    }
}

/// The signed number that little-endian bytes spell in two's complement.
pub open spec fn le_signed(b: Seq<u8>) -> int {
    if 2 * le_value(b) >= pow256(b.len()) {
        le_value(b) - pow256(b.len())
    } else {
        le_value(b) as int
    }
}

/// The byte of a `bool`.
pub open spec fn bool_byte(x: bool) -> u8 {
    if x {
        1
    } else {
        0
    }
}

/// The powers of 256 that the integer widths need.
pub proof fn lemma_pow256_values()
    ensures
        pow256(1) == 0x100,
        pow256(2) == 0x1_0000,
        pow256(4) == 0x1_0000_0000,
        pow256(8) == 0x1_0000_0000_0000_0000,
{
    reveal_with_fuel(pow256, 9);
}

/// `n` bytes spell back every number below `256^n` that they encode.
pub proof fn lemma_le_roundtrip(v: int, n: nat)
    requires
        0 <= v < pow256(n),
    ensures
        le_bytes(v, n).len() == n,
        le_value(le_bytes(v, n)) == v,
    decreases n,
{
    if n > 0 {
        let q = v / 256;
        let r = v % 256;
        let p = pow256((n - 1) as nat);
        assert(v == 256 * q + r && 0 <= r < 256) by {
            vstd::arithmetic::div_mod::lemma_fundamental_div_mod(v, 256);
        }
        assert(0 <= q < p) by (nonlinear_arith)
            requires
                v == 256 * q + r,
                0 <= r < 256,
                0 <= v < 256 * p,
        ;
        lemma_le_roundtrip(q, (n - 1) as nat);
        let b = le_bytes(v, n);
        assert(b.drop_first() =~= le_bytes(q, (n - 1) as nat));
    }
}

/// Adding `256^n` to a number does not change its `n` bytes.
pub proof fn lemma_le_shift(v: int, n: nat)
    ensures
        le_bytes(v, n) == le_bytes(v + pow256(n), n),
    decreases n,
{
    if n > 0 {
        let p = pow256((n - 1) as nat);
        let q = v / 256;
        let r = v % 256;
        assert(v == 256 * q + r && 0 <= r < 256) by {
            vstd::arithmetic::div_mod::lemma_fundamental_div_mod(v, 256);
        }
        assert(v + pow256(n) == 256 * (q + p) + r);
        assert((256 * (q + p) + r) / 256 == q + p) by {
            vstd::arithmetic::div_mod::lemma_div_multiples_vanish_fancy(q + p, r, 256);
        }
        assert((256 * (q + p) + r) % 256 == r) by {
            vstd::arithmetic::div_mod::lemma_mod_multiples_vanish(q + p, r, 256);
            vstd::arithmetic::div_mod::lemma_small_mod(r as nat, 256);
        }
        lemma_le_shift(q, (n - 1) as nat);
        assert(le_bytes(v, n) =~= le_bytes(v + pow256(n), n));
    }
}

/// `n` bytes spell back, in two's complement, every number of `n` bytes
/// that they encode.
pub proof fn lemma_le_signed_roundtrip(v: int, n: nat)
    requires
        n >= 1,
        -pow256(n) <= 2 * v < pow256(n),
    ensures
        le_bytes(v, n).len() == n,
        le_signed(le_bytes(v, n)) == v,
{
    if v >= 0 {
        lemma_le_roundtrip(v, n);
    } else {
        lemma_le_shift(v, n);
        lemma_le_roundtrip(v + pow256(n), n);
    }
}

/// Every value of a fixed-width integer type, written as its
/// little-endian bytes, reads back as itself: `u8`/`i8` in 1 byte,
/// `u16`/`i16` in 2, `u32`/`i32` in 4, `u64`/`i64` and `usize`/`isize` in
/// 8, the signed ones in two's complement. With `law_bool_roundtrip` and
/// the empty encoding of `()`, this is the round trip of every primitive
/// type through the format.
pub proof fn law_primitive_roundtrips()
    ensures
        forall|x: u8| #![trigger le_bytes(x as int, 1)] le_bytes(x as int, 1).len() == 1 && le_value(le_bytes(x as int, 1)) == x,
        forall|x: i8| #![trigger le_bytes(x as int, 1)] le_bytes(x as int, 1).len() == 1 && le_signed(le_bytes(x as int, 1)) == x,
        forall|x: u16| #![trigger le_bytes(x as int, 2)] le_bytes(x as int, 2).len() == 2 && le_value(le_bytes(x as int, 2)) == x,
        forall|x: i16| #![trigger le_bytes(x as int, 2)] le_bytes(x as int, 2).len() == 2 && le_signed(le_bytes(x as int, 2)) == x,
        forall|x: u32| #![trigger le_bytes(x as int, 4)] le_bytes(x as int, 4).len() == 4 && le_value(le_bytes(x as int, 4)) == x,
        forall|x: i32| #![trigger le_bytes(x as int, 4)] le_bytes(x as int, 4).len() == 4 && le_signed(le_bytes(x as int, 4)) == x,
        forall|x: u64| #![trigger le_bytes(x as int, 8)] le_bytes(x as int, 8).len() == 8 && le_value(le_bytes(x as int, 8)) == x,
        forall|x: i64| #![trigger le_bytes(x as int, 8)] le_bytes(x as int, 8).len() == 8 && le_signed(le_bytes(x as int, 8)) == x,
        forall|x: usize| #![trigger le_bytes(x as int, 8)] le_bytes(x as int, 8).len() == 8 && le_value(le_bytes(x as int, 8)) == x,
        forall|x: isize| #![trigger le_bytes(x as int, 8)] le_bytes(x as int, 8).len() == 8 && le_signed(le_bytes(x as int, 8)) == x,
{
    lemma_pow256_values();
    assert forall|x: u8| #![trigger le_bytes(x as int, 1)] le_bytes(x as int, 1).len() == 1 && le_value(le_bytes(x as int, 1)) == x by {
        lemma_le_roundtrip(x as int, 1);
    }
    assert forall|x: i8| #![trigger le_bytes(x as int, 1)] le_bytes(x as int, 1).len() == 1 && le_signed(le_bytes(x as int, 1)) == x by {
        lemma_le_signed_roundtrip(x as int, 1);
    }
    assert forall|x: u16| #![trigger le_bytes(x as int, 2)] le_bytes(x as int, 2).len() == 2 && le_value(le_bytes(x as int, 2)) == x by {
        lemma_le_roundtrip(x as int, 2);
    }
    assert forall|x: i16| #![trigger le_bytes(x as int, 2)] le_bytes(x as int, 2).len() == 2 && le_signed(le_bytes(x as int, 2)) == x by {
        lemma_le_signed_roundtrip(x as int, 2);
    }
    assert forall|x: u32| #![trigger le_bytes(x as int, 4)] le_bytes(x as int, 4).len() == 4 && le_value(le_bytes(x as int, 4)) == x by {
        lemma_le_roundtrip(x as int, 4);
    }
    assert forall|x: i32| #![trigger le_bytes(x as int, 4)] le_bytes(x as int, 4).len() == 4 && le_signed(le_bytes(x as int, 4)) == x by {
        lemma_le_signed_roundtrip(x as int, 4);
    }
    assert forall|x: u64| #![trigger le_bytes(x as int, 8)] le_bytes(x as int, 8).len() == 8 && le_value(le_bytes(x as int, 8)) == x by {
        lemma_le_roundtrip(x as int, 8);
    }
    assert forall|x: i64| #![trigger le_bytes(x as int, 8)] le_bytes(x as int, 8).len() == 8 && le_signed(le_bytes(x as int, 8)) == x by {
        lemma_le_signed_roundtrip(x as int, 8);
    }
    assert forall|x: usize| #![trigger le_bytes(x as int, 8)] le_bytes(x as int, 8).len() == 8 && le_value(le_bytes(x as int, 8)) == x by {
        lemma_le_roundtrip(x as int, 8);
    }
    assert forall|x: isize| #![trigger le_bytes(x as int, 8)] le_bytes(x as int, 8).len() == 8 && le_signed(le_bytes(x as int, 8)) == x by {
        lemma_le_signed_roundtrip(x as int, 8);
    }
}

/// A `bool` written as its byte reads back as itself: the byte is 0 or 1,
/// and it is 1 exactly for `true`.
pub proof fn law_bool_roundtrip(x: bool)
    ensures
        seq![bool_byte(x)].len() == 1,
        seq![bool_byte(x)][0] <= 1,
        (seq![bool_byte(x)][0] == 1) == x,
{
}

/// An `Option<u32>` written as a tag byte and its value reads back as
/// itself: the bytes have the shape a reader accepts, the tag says whether
/// there is a value, and the value's bytes spell it.
pub proof fn law_option_u32_roundtrip(x: Option<u32>)
    ensures
        ({
            let b = if x is None { seq![0u8] } else { seq![1u8] + le_bytes(x->0 as int, 4) };
            &&& (b.len() == 1 && b[0] == 0) || (b.len() == 5 && b[0] == 1)
            &&& (b[0] == 0 <==> x is None)
            &&& x is Some ==> le_value(b.drop_first()) == x->0
        }),
{
    lemma_pow256_values();
    if x is Some {
        lemma_le_roundtrip(x->0 as int, 4);
        let b = seq![1u8] + le_bytes(x->0 as int, 4);
        assert(b.drop_first() =~= le_bytes(x->0 as int, 4));
    }
}

/// An `Option<u8>` written as a tag byte and its value reads back as
/// itself.
pub proof fn law_option_u8_roundtrip(x: Option<u8>)
    ensures
        ({
            let b = if x is None { seq![0u8] } else { seq![1u8, x->0] };
            &&& (b.len() == 1 && b[0] == 0) || (b.len() == 2 && b[0] == 1)
            &&& (b[0] == 0 <==> x is None)
            &&& x is Some ==> b[1] == x->0
        }),
{
}

/// A tuple of an `i64`, a `u8`, a `bool` and a unit, written part after
/// part, reads back as itself.
pub proof fn law_fields_roundtrip(x: (i64, u8, bool, ()))
    ensures
        ({
            let b = le_bytes(x.0 as int, 8) + seq![x.1, bool_byte(x.2)];
            &&& b.len() == 10
            &&& b[9] <= 1
            &&& le_signed(b.subrange(0, 8)) == x.0
            &&& b[8] == x.1
            &&& (b[9] == 1) == x.2
        }),
{
    lemma_pow256_values();
    lemma_le_signed_roundtrip(x.0 as int, 8);
    let b = le_bytes(x.0 as int, 8) + seq![x.1, bool_byte(x.2)];
    assert(b.subrange(0, 8) =~= le_bytes(x.0 as int, 8));
}

/// An array of three `i32`, written value after value, reads back as
/// itself: each 4 bytes spell the value at their place.
pub proof fn law_i32_array_roundtrip(x: [i32; 3])
    ensures
        ({
            let b = le_bytes(x@[0] as int, 4) + le_bytes(x@[1] as int, 4) + le_bytes(x@[2] as int, 4);
            &&& b.len() == 12
            &&& forall|i: int| 0 <= i < 3 ==> le_signed(#[trigger] b.subrange(4 * i, 4 * i + 4)) == x@[i]
        }),
{
    lemma_pow256_values();
    lemma_le_signed_roundtrip(x@[0] as int, 4);
    lemma_le_signed_roundtrip(x@[1] as int, 4);
    lemma_le_signed_roundtrip(x@[2] as int, 4);
    let b = le_bytes(x@[0] as int, 4) + le_bytes(x@[1] as int, 4) + le_bytes(x@[2] as int, 4);
    assert(b.subrange(0, 4) =~= le_bytes(x@[0] as int, 4));
    assert(b.subrange(4, 8) =~= le_bytes(x@[1] as int, 4));
    assert(b.subrange(8, 12) =~= le_bytes(x@[2] as int, 4));
    assert forall|i: int| 0 <= i < 3 implies le_signed(#[trigger] b.subrange(4 * i, 4 * i + 4)) == x@[i] by {
        if i == 0 {
        } else if i == 1 {
        } else {
        }
    }
}

/// A string whose UTF-8 bytes number at most `u32::MAX`, written as that
/// number in 4 bytes and the bytes, reads back as itself: the length spells
/// the rest, the rest is valid UTF-8, and it decodes to the string.
pub proof fn law_string_roundtrip(s: Seq<char>)
    requires
        encode_utf8(s).len() <= u32::MAX,
    ensures
        ({
            let b = le_bytes(encode_utf8(s).len() as int, 4) + encode_utf8(s);
            &&& b.len() >= 4
            &&& b.len() == 4 + le_value(b.subrange(0, 4))
            &&& valid_utf8(b.subrange(4, b.len() as int))
            &&& decode_utf8(b.subrange(4, b.len() as int)) == s
        }),
{
    broadcast use vstd::utf8::encode_utf8_decode_utf8, vstd::utf8::encode_utf8_valid_utf8;

    lemma_pow256_values();
    let n = encode_utf8(s).len() as int;
    lemma_le_roundtrip(n, 4);
    let b = le_bytes(n, 4) + encode_utf8(s);
    assert(b.subrange(0, 4) =~= le_bytes(n, 4));
    assert(b.subrange(4, b.len() as int) =~= encode_utf8(s));
}

/// `<u8 as BorshSerialize>::try_to_vec` of borsh: the 1 little-endian
/// byte of `x`; writing to a vector does not fail.
#[verifier::external_body]
pub(crate) fn to_vec_u8(x: u8) -> (r: std::io::Result<Vec<u8>>)
    ensures
        r is Ok,
        r->Ok_0@ == le_bytes(x as int, 1),
{
    x.try_to_vec()
}

/// `<u8 as BorshDeserialize>::try_from_slice` of borsh: exactly 1
/// byte, read as a little-endian unsigned number.
#[verifier::external_body]
pub(crate) fn from_slice_u8(b: &[u8]) -> (r: std::io::Result<u8>)
    ensures
        r is Ok <==> b@.len() == 1,
        r is Ok ==> r->Ok_0 == le_value(b@),
{
    u8::try_from_slice(b)
}

/// `<i8 as BorshSerialize>::try_to_vec` of borsh: the 1 little-endian
/// byte of `x`; writing to a vector does not fail.
#[verifier::external_body]
pub(crate) fn to_vec_i8(x: i8) -> (r: std::io::Result<Vec<u8>>)
    ensures
        r is Ok,
        r->Ok_0@ == le_bytes(x as int, 1),
{
    x.try_to_vec()
}

/// `<i8 as BorshDeserialize>::try_from_slice` of borsh: exactly 1
/// byte, read as a little-endian signed number.
#[verifier::external_body]
pub(crate) fn from_slice_i8(b: &[u8]) -> (r: std::io::Result<i8>)
    ensures
        r is Ok <==> b@.len() == 1,
        r is Ok ==> r->Ok_0 == le_signed(b@),
{
    i8::try_from_slice(b)
}

/// `<u16 as BorshSerialize>::try_to_vec` of borsh: the 2 little-endian
/// bytes of `x`; writing to a vector does not fail.
#[verifier::external_body]
pub(crate) fn to_vec_u16(x: u16) -> (r: std::io::Result<Vec<u8>>)
    ensures
        r is Ok,
        r->Ok_0@ == le_bytes(x as int, 2),
{
    x.try_to_vec()
}

/// `<u16 as BorshDeserialize>::try_from_slice` of borsh: exactly 2
/// bytes, read as a little-endian unsigned number.
#[verifier::external_body]
pub(crate) fn from_slice_u16(b: &[u8]) -> (r: std::io::Result<u16>)
    ensures
        r is Ok <==> b@.len() == 2,
        r is Ok ==> r->Ok_0 == le_value(b@),
{
    u16::try_from_slice(b)
}

/// `<i16 as BorshSerialize>::try_to_vec` of borsh: the 2 little-endian
/// bytes of `x`; writing to a vector does not fail.
#[verifier::external_body]
pub(crate) fn to_vec_i16(x: i16) -> (r: std::io::Result<Vec<u8>>)
    ensures
        r is Ok,
        r->Ok_0@ == le_bytes(x as int, 2),
{
    x.try_to_vec()
}

/// `<i16 as BorshDeserialize>::try_from_slice` of borsh: exactly 2
/// bytes, read as a little-endian signed number.
#[verifier::external_body]
pub(crate) fn from_slice_i16(b: &[u8]) -> (r: std::io::Result<i16>)
    ensures
        r is Ok <==> b@.len() == 2,
        r is Ok ==> r->Ok_0 == le_signed(b@),
{
    i16::try_from_slice(b)
}

/// `<u32 as BorshSerialize>::try_to_vec` of borsh: the 4 little-endian
/// bytes of `x`; writing to a vector does not fail.
#[verifier::external_body]
pub(crate) fn to_vec_u32(x: u32) -> (r: std::io::Result<Vec<u8>>)
    ensures
        r is Ok,
        r->Ok_0@ == le_bytes(x as int, 4),
{
    x.try_to_vec()
}

/// `<u32 as BorshDeserialize>::try_from_slice` of borsh: exactly 4
/// bytes, read as a little-endian unsigned number.
#[verifier::external_body]
pub(crate) fn from_slice_u32(b: &[u8]) -> (r: std::io::Result<u32>)
    ensures
        r is Ok <==> b@.len() == 4,
        r is Ok ==> r->Ok_0 == le_value(b@),
{
    u32::try_from_slice(b)
}

/// `<i32 as BorshSerialize>::try_to_vec` of borsh: the 4 little-endian
/// bytes of `x`; writing to a vector does not fail.
#[verifier::external_body]
pub(crate) fn to_vec_i32(x: i32) -> (r: std::io::Result<Vec<u8>>)
    ensures
        r is Ok,
        r->Ok_0@ == le_bytes(x as int, 4),
{
    x.try_to_vec()
}

/// `<i32 as BorshDeserialize>::try_from_slice` of borsh: exactly 4
/// bytes, read as a little-endian signed number.
#[verifier::external_body]
pub(crate) fn from_slice_i32(b: &[u8]) -> (r: std::io::Result<i32>)
    ensures
        r is Ok <==> b@.len() == 4,
        r is Ok ==> r->Ok_0 == le_signed(b@),
{
    i32::try_from_slice(b)
}

/// `<u64 as BorshSerialize>::try_to_vec` of borsh: the 8 little-endian
/// bytes of `x`; writing to a vector does not fail.
#[verifier::external_body]
pub(crate) fn to_vec_u64(x: u64) -> (r: std::io::Result<Vec<u8>>)
    ensures
        r is Ok,
        r->Ok_0@ == le_bytes(x as int, 8),
{
    x.try_to_vec()
}

/// `<u64 as BorshDeserialize>::try_from_slice` of borsh: exactly 8
/// bytes, read as a little-endian unsigned number.
#[verifier::external_body]
pub(crate) fn from_slice_u64(b: &[u8]) -> (r: std::io::Result<u64>)
    ensures
        r is Ok <==> b@.len() == 8,
        r is Ok ==> r->Ok_0 == le_value(b@),
{
    u64::try_from_slice(b)
}

/// `<i64 as BorshSerialize>::try_to_vec` of borsh: the 8 little-endian
/// bytes of `x`; writing to a vector does not fail.
#[verifier::external_body]
pub(crate) fn to_vec_i64(x: i64) -> (r: std::io::Result<Vec<u8>>)
    ensures
        r is Ok,
        r->Ok_0@ == le_bytes(x as int, 8),
{
    x.try_to_vec()
}

/// `<i64 as BorshDeserialize>::try_from_slice` of borsh: exactly 8
/// bytes, read as a little-endian signed number.
#[verifier::external_body]
pub(crate) fn from_slice_i64(b: &[u8]) -> (r: std::io::Result<i64>)
    ensures
        r is Ok <==> b@.len() == 8,
        r is Ok ==> r->Ok_0 == le_signed(b@),
{
    i64::try_from_slice(b)
}

/// `<usize as BorshSerialize>::try_to_vec` of borsh: the 8 little-endian
/// bytes of `x` as a `u64`; writing to a vector does not fail.
#[verifier::external_body]
pub(crate) fn to_vec_usize(x: usize) -> (r: std::io::Result<Vec<u8>>)
    ensures
        r is Ok,
        r->Ok_0@ == le_bytes(x as int, 8),
{
    x.try_to_vec()
}

/// `<usize as BorshDeserialize>::try_from_slice` of borsh: exactly 8 bytes,
/// read as a little-endian unsigned number that fits a `usize`.
#[verifier::external_body]
pub(crate) fn from_slice_usize(b: &[u8]) -> (r: std::io::Result<usize>)
    ensures
        r is Ok <==> (b@.len() == 8 && le_value(b@) <= usize::MAX),
        r is Ok ==> r->Ok_0 == le_value(b@),
{
    usize::try_from_slice(b)
}

/// `<isize as BorshSerialize>::try_to_vec` of borsh: the 8 little-endian
/// bytes of `x` as an `i64`; writing to a vector does not fail.
#[verifier::external_body]
pub(crate) fn to_vec_isize(x: isize) -> (r: std::io::Result<Vec<u8>>)
    ensures
        r is Ok,
        r->Ok_0@ == le_bytes(x as int, 8),
{
    x.try_to_vec()
}

/// `<isize as BorshDeserialize>::try_from_slice` of borsh: exactly 8 bytes,
/// read as a little-endian signed number that fits an `isize`.
#[verifier::external_body]
pub(crate) fn from_slice_isize(b: &[u8]) -> (r: std::io::Result<isize>)
    ensures
        r is Ok <==> (b@.len() == 8 && isize::MIN <= le_signed(b@) <= isize::MAX),
        r is Ok ==> r->Ok_0 == le_signed(b@),
{
    isize::try_from_slice(b)
}

/// `<bool as BorshSerialize>::try_to_vec` of borsh: one byte, 1 for `true`
/// and 0 for `false`; writing to a vector does not fail.
#[verifier::external_body]
pub(crate) fn to_vec_bool(x: bool) -> (r: std::io::Result<Vec<u8>>)
    ensures
        r is Ok,
        r->Ok_0@ == seq![bool_byte(x)],
{
    x.try_to_vec()
}

/// `<bool as BorshDeserialize>::try_from_slice` of borsh: exactly one byte,
/// 0 or 1, read as `false` or `true`.
#[verifier::external_body]
pub(crate) fn from_slice_bool(b: &[u8]) -> (r: std::io::Result<bool>)
    ensures
        r is Ok <==> (b@.len() == 1 && b@[0] <= 1),
        r is Ok ==> r->Ok_0 == (b@[0] == 1),
{
    bool::try_from_slice(b)
}

/// `<() as BorshSerialize>::try_to_vec` of borsh: no bytes; writing to a
/// vector does not fail.
#[verifier::external_body]
pub(crate) fn to_vec_unit(x: ()) -> (r: std::io::Result<Vec<u8>>)
    ensures
        r is Ok,
        r->Ok_0@ == Seq::<u8>::empty(),
{
    x.try_to_vec()
}

/// `<() as BorshDeserialize>::try_from_slice` of borsh: no bytes at all.
#[verifier::external_body]
pub(crate) fn from_slice_unit(b: &[u8]) -> (r: std::io::Result<()>)
    ensures
        r is Ok <==> b@.len() == 0,
{
    <()>::try_from_slice(b)
}

/// `<Option<u32> as BorshSerialize>::try_to_vec` of borsh: the byte 0 for
/// `None`, else the byte 1 and the 4 little-endian bytes of the value;
/// writing to a vector does not fail.
#[verifier::external_body]
pub(crate) fn to_vec_option_u32(x: Option<u32>) -> (r: std::io::Result<Vec<u8>>)
    ensures
        r is Ok,
        x is None ==> r->Ok_0@ == seq![0u8],
        x is Some ==> r->Ok_0@ == seq![1u8] + le_bytes(x->0 as int, 4),
{
    x.try_to_vec()
}

/// `<Option<u32> as BorshDeserialize>::try_from_slice` of borsh: the byte 0
/// alone for `None`, or the byte 1 followed by exactly 4 little-endian
/// bytes of the value.
#[verifier::external_body]
pub(crate) fn from_slice_option_u32(b: &[u8]) -> (r: std::io::Result<Option<u32>>)
    ensures
        r is Ok <==> ((b@.len() == 1 && b@[0] == 0) || (b@.len() == 5 && b@[0] == 1)),
        r is Ok ==> (r->Ok_0 is None <==> b@[0] == 0),
        r is Ok ==> (r->Ok_0 is Some ==> r->Ok_0->0 == le_value(b@.drop_first())),
{
    Option::<u32>::try_from_slice(b)
}

/// `<Option<u8> as BorshSerialize>::try_to_vec` of borsh: the byte 0 for
/// `None`, else the byte 1 and the value; writing to a vector does not fail.
#[verifier::external_body]
pub(crate) fn to_vec_option_u8(x: Option<u8>) -> (r: std::io::Result<Vec<u8>>)
    ensures
        r is Ok,
        x is None ==> r->Ok_0@ == seq![0u8],
        x is Some ==> r->Ok_0@ == seq![1u8, x->0],
{
    x.try_to_vec()
}

/// `<Option<u8> as BorshDeserialize>::try_from_slice` of borsh: the byte 0
/// alone for `None`, or the byte 1 followed by exactly the value.
#[verifier::external_body]
pub(crate) fn from_slice_option_u8(b: &[u8]) -> (r: std::io::Result<Option<u8>>)
    ensures
        r is Ok <==> ((b@.len() == 1 && b@[0] == 0) || (b@.len() == 2 && b@[0] == 1)),
        r is Ok ==> (r->Ok_0 is None <==> b@[0] == 0),
        r is Ok ==> (r->Ok_0 is Some ==> r->Ok_0->0 == b@[1]),
{
    Option::<u8>::try_from_slice(b)
}

/// `<(i64, u8, bool, ()) as BorshSerialize>::try_to_vec` of borsh: the
/// parts one after the other; writing to a vector does not fail.
#[verifier::external_body]
pub(crate) fn to_vec_fields(x: (i64, u8, bool, ())) -> (r: std::io::Result<Vec<u8>>)
    ensures
        r is Ok,
        r->Ok_0@ == le_bytes(x.0 as int, 8) + seq![x.1, bool_byte(x.2)],
{
    x.try_to_vec()
}

/// `<(i64, u8, bool, ()) as BorshDeserialize>::try_from_slice` of borsh:
/// exactly 8 bytes of a signed number, a byte, and a byte 0 or 1.
#[verifier::external_body]
pub(crate) fn from_slice_fields(b: &[u8]) -> (r: std::io::Result<(i64, u8, bool, ())>)
    ensures
        r is Ok <==> (b@.len() == 10 && b@[9] <= 1),
        r is Ok ==> r->Ok_0.0 == le_signed(b@.subrange(0, 8)),
        r is Ok ==> r->Ok_0.1 == b@[8],
        r is Ok ==> r->Ok_0.2 == (b@[9] == 1),
{
    <(i64, u8, bool, ())>::try_from_slice(b)
}

/// `<[i32; 3] as BorshSerialize>::try_to_vec` of borsh: the 4 little-endian
/// bytes of each value in turn; writing to a vector does not fail.
#[verifier::external_body]
pub(crate) fn to_vec_i32_array(x: [i32; 3]) -> (r: std::io::Result<Vec<u8>>)
    ensures
        r is Ok,
        r->Ok_0@ == le_bytes(x@[0] as int, 4) + le_bytes(x@[1] as int, 4) + le_bytes(x@[2] as int, 4),
{
    x.try_to_vec()
}

/// `<[i32; 3] as BorshDeserialize>::try_from_slice` of borsh: exactly 12
/// bytes, each 4 of them a little-endian signed number.
#[verifier::external_body]
pub(crate) fn from_slice_i32_array(b: &[u8]) -> (r: std::io::Result<[i32; 3]>)
    ensures
        r is Ok <==> b@.len() == 12,
        r is Ok ==> (forall|i: int| 0 <= i < 3 ==> #[trigger] r->Ok_0@[i] == le_signed(b@.subrange(4 * i, 4 * i + 4))),
{
    <[i32; 3]>::try_from_slice(b)
}

/// `<String as BorshSerialize>::try_to_vec` of borsh: the number of UTF-8
/// bytes of `x` in 4 little-endian bytes, then those bytes; an error when
/// the number does not fit 4 bytes.
#[verifier::external_body]
pub(crate) fn to_vec_string(x: &String) -> (r: std::io::Result<Vec<u8>>)
    ensures
        r is Ok <==> encode_utf8(x@).len() <= u32::MAX,
        r is Ok ==> r->Ok_0@ == le_bytes(encode_utf8(x@).len() as int, 4) + encode_utf8(x@),
{
    x.try_to_vec()
}

/// `<String as BorshDeserialize>::try_from_slice` of borsh: a length in 4
/// little-endian bytes followed by exactly that many bytes of valid UTF-8,
/// decoded.
#[verifier::external_body]
pub(crate) fn from_slice_string(b: &[u8]) -> (r: std::io::Result<String>)
    ensures
        r is Ok <==> (b@.len() >= 4 && b@.len() == 4 + le_value(b@.subrange(0, 4)) && valid_utf8(b@.subrange(4, b@.len() as int))),
        r is Ok ==> r->Ok_0@ == decode_utf8(b@.subrange(4, b@.len() as int)),
{
    String::try_from_slice(b)
}

} // verus!
