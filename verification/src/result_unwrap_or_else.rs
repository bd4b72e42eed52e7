//! Dividing with errors for a zero or negative operand, and reading the
//! quotient with a fallback.
use vstd::prelude::*;
use crate::seahorn::any;
use crate::string_parse::string_from;

verus! {


/// `Result::unwrap_or_else` of core: the value, or what `op` makes of the
/// error.
pub assume_specification<T, E, F: FnOnce(E) -> T>[ Result::<T, E>::unwrap_or_else ](val: Result<T, E>, op: F) -> (res: T)
    requires
        val is Err ==> call_requires(op, (val->Err_0,)),
    ensures
        val is Ok ==> res == val->Ok_0,
        val is Err ==> call_ensures(op, (val->Err_0,), res),
;

/// What `divide_result` answers: the error for a zero divisor, the error
/// for a negative operand, else the quotient.
pub open spec fn division_outcome(a: i32, b: i32) -> Result<i32, Seq<char>> {
    if b == 0 {
        Err("Cannot divide by zero"@)
    } else if a < 0 || b < 0 {
        Err("Cannot have negative values"@)
    } else {
        Ok((a / b) as i32)
    }
}

/// What a division answers, for all operands: with a divisor of 0 the
/// zero-divisor error; else, with a negative operand, the negative-values
/// error; else the integer quotient, the `q` with `q * b <= a < q * b + b`,
/// which is never negative and never more than `a`.
pub proof fn law_division(a: i32, b: i32)
    ensures
        division_outcome(a, b) is Ok <==> (a >= 0 && b > 0),
        b == 0 ==> division_outcome(a, b) == Err::<i32, Seq<char>>("Cannot divide by zero"@),
        (b != 0 && (a < 0 || b < 0)) ==> division_outcome(a, b) == Err::<i32, Seq<char>>("Cannot have negative values"@),
        (a >= 0 && b > 0) ==> ({
            let q = division_outcome(a, b)->Ok_0;
            &&& q * b <= a
            &&& a < q * b + b
            &&& 0 <= q <= a
        }),
{
    if a >= 0 && b > 0 {
        let q = a / b;
        assert(q * b <= a && a < q * b + b && 0 <= q <= a) by (nonlinear_arith)
            requires
                a >= 0,
                b > 0,
                q == a / b,
        {
            vstd::arithmetic::div_mod::lemma_fundamental_div_mod(a as int, b as int);
            vstd::arithmetic::div_mod::lemma_div_pos_is_pos(a as int, b as int);
            vstd::arithmetic::div_mod::lemma_div_is_ordered_by_denominator(a as int, 1, b as int);
        }
    }
}

/// The quotient of `a` by `b`, or -1 when the division is refused.
pub fn unwrap_or_else(x: i32, y: i32) -> (r: i32)
    ensures
        r == match division_outcome(x, y) {
            Ok(q) => q,
            Err(_) => -1i32,
        },
        (x >= 0 && y > 0) ==> (r * y <= x && x < r * y + y),
        (y == 0 || x < 0 || y < 0) ==> r == -1,
{
    proof {
        law_division(x, y);
    }
    let result: Result<i32, String> = divide_result(x, y);
    let value: i32 = result.unwrap_or_else(
        |_e: String| -> (r: i32)
            ensures r == -1i32
        { -1 },
    );
    value
}

/// The quotient of `a` by `b`; an error when `b` is zero, or else when
/// either operand is negative.
pub fn divide_result(a: i32, b: i32) -> (r: Result<i32, String>)
    ensures
        r is Ok <==> division_outcome(a, b) is Ok,
        r is Ok ==> r->Ok_0 == division_outcome(a, b)->Ok_0,
        r is Err ==> r->Err_0@ == division_outcome(a, b)->Err_0,
        r is Ok <==> (a >= 0 && b > 0),
        r is Ok ==> (r->Ok_0 * b <= a && a < r->Ok_0 * b + b),
        b == 0 ==> (r is Err && r->Err_0@ == "Cannot divide by zero"@),
        (b != 0 && (a < 0 || b < 0)) ==> (r is Err && r->Err_0@ == "Cannot have negative values"@),
{
    proof {
        law_division(a, b);
    }
    if b == 0 {
        Err(string_from("Cannot divide by zero"))
    } else if a < 0 || b < 0 {
        Err(string_from("Cannot have negative values"))
    } else {
        Ok(a / b)
    }
}

/// Dividing by zero reads as -1.
pub fn entrypt() {
    let x: i32 = any();
    let y: i32 = any();
    if !(y == 0) {
        return;
    }
    let res: i32 = unwrap_or_else(x, y);
    assert(res == -1);
}

} // verus!
