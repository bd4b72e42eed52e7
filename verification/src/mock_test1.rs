//! A trait that harnesses replace by mocks, and a function that uses it.
use vstd::prelude::*;

verus! {

/// Three methods that a mock records and answers.
pub trait Test {
    fn a(&self, x: i32, y: bool) -> i32;

    fn b(&self) -> u8;

    fn c(&self) -> i32;
}

/// Calls `a` with `x + 5` and `y`, then `b` and `c`, and returns what `a`
/// returned.
pub fn test<T: Test>(mock_test: &T, x: i32, y: bool) -> (r: i32)
    requires
        x <= i32::MAX - 5,
    ensures
        call_ensures(T::a, (mock_test, (x + 5) as i32, y), r),
        exists|rb: u8| call_ensures(T::b, (mock_test,), rb),
        exists|rc: i32| call_ensures(T::c, (mock_test,), rc),
{
    let ans: i32 = mock_test.a(x + 5, y);
    mock_test.b();
    mock_test.c();
    ans
}

/// A call recorded by a mock that allows at most `max_times` calls, after
/// `times` calls so far: the new count, and whether it stays within the
/// limit (a mock fails the harness when it does not).
pub fn record_call(times: u64, max_times: u64) -> (r: (u64, bool))
    requires
        times < u64::MAX,
    ensures
        r.0 == times + 1,
        r.1 == (times + 1 <= max_times),
{
    let count: u64 = times + 1;
    (count, count <= max_times)
}

/// Whether a mock was called exactly `val` times, having been called
/// `times` times.
pub fn called_exactly(times: u64, val: u64) -> (r: bool)
    ensures
        r == (times == val),
{
    times == val
}

} // verus!
