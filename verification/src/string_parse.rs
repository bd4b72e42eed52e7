//! Parsing a decimal number out of a string.
use vstd::prelude::*;

verus! {

#[verifier::external_type_specification]
#[verifier::external_body]
pub struct ExParseIntError(core::num::ParseIntError);

/// Whether `c` is one of the ASCII digits `0` to `9`.
pub open spec fn is_decimal_digit(c: char) -> bool {
    '0' <= c <= '9'
}

/// The number that a string of decimal digits spells.
pub open spec fn digits_value(s: Seq<char>) -> int
    decreases s.len(),
{
    if s.len() == 0 {
        0
    } else {
        digits_value(s.drop_last()) * 10 + (s.last() as int - '0' as int)
    }
}

/// The number that `s` spells in decimal: an optional sign, `+` or `-`,
/// followed by one digit or more; `None` for any other string.
pub open spec fn decimal_value(s: Seq<char>) -> Option<int> {
    let signed = s.len() > 0 && (s[0] == '-' || s[0] == '+');
    let digits = if signed {
        s.drop_first()
    } else {
        s
    };
    if digits.len() > 0 && forall|i: int| 0 <= i < digits.len() ==> is_decimal_digit(#[trigger] digits[i]) {
        Some(
            if signed && s[0] == '-' {
                -digits_value(digits)
            } else {
                digits_value(digits)
            },
        )
    } else {
        None
    }
}

/// `str::parse::<i32>` of core: the number that `s` spells in decimal when
/// it lies in the range of `i32`, else an error.
#[verifier::external_body]
pub(crate) fn parse_i32(s: &str) -> (r: Result<i32, core::num::ParseIntError>)
    ensures
        r is Ok <==> (decimal_value(s@) is Some && i32::MIN <= decimal_value(s@)->0 <= i32::MAX),
        r is Ok ==> decimal_value(s@) == Some(r->Ok_0 as int),
{
    s.parse::<i32>()
}

/// `<String as From<&str>>::from` of alloc: a string holding the
/// characters of `s`.
#[verifier::external_body]
pub(crate) fn string_from(s: &str) -> (res: String)
    ensures
        res@ == s@,
{
    String::from(s)
}

/// The string "42" parses to 42.
pub fn entrypt() {
    let value: String = string_from("42");
    proof {
        reveal_strlit("42");
        let s = "42"@;
        assert(s.len() == 2 && s[0] == '4' && s[1] == '2');
        let first = s.drop_last();
        assert(first.len() == 1 && first[0] == '4');
        assert(first.drop_last().len() == 0);
        assert(digits_value(first.drop_last()) == 0);
        assert(digits_value(first) == 4);
        assert(digits_value(s) == 42);
    }
    let result: i32 = parse_i32(value.as_str()).unwrap();
    assert(result == 42);
}

} // verus!
