use verify_rust::allocator::CAllocator;
use verify_rust::enum_as_param::{enum_param_test, CEnum};
use verify_rust::mock_test1::{called_exactly, record_call, Test};
use verify_rust::option_and_then::double;
use verify_rust::option_double::double_if_even;
use verify_rust::option_vec_map::{square, square_all};
use verify_rust::pointer_same_arg::example1;
use verify_rust::read_across_f::example2_down;
use verify_rust::result_iter_mut::iter_mut;
use verify_rust::result_unwrap_or_else::{divide_result, unwrap_or_else};
use verify_rust::strings::{f1, f2};

#[test]
fn enum_constants_stand_for_their_numbers() {
    assert_eq!(enum_param_test(CEnum::KValOne), 101);
    assert_eq!(enum_param_test(CEnum::KValTwo), 102);
    assert_eq!(enum_param_test(CEnum::KValThree), 103);
}

#[test]
fn double_through_and_then() {
    assert_eq!(double(Some(21)), Some(42));
    assert_eq!(double(Some(-4)), Some(-8));
    assert_eq!(double(None), None);
}

#[test]
fn double_only_even_numbers() {
    assert_eq!(double_if_even(6), Some(12));
    assert_eq!(double_if_even(7), None);
    assert_eq!(double_if_even(0), Some(0));
    assert_eq!(double_if_even(-3), None);
}

#[test]
fn square_an_option() {
    assert_eq!(square(Some(7)), Some(49));
    assert_eq!(square(None), None);
    assert_eq!(square(Some(65535)), Some(4294836225));
}

#[test]
fn square_every_option_in_order() {
    let nums = vec![Some(1), None, Some(3)];
    assert_eq!(square_all(nums), vec![Some(1), None, Some(9)]);
    assert_eq!(square_all(Vec::new()), Vec::<Option<u32>>::new());
}

#[test]
fn example1_reads_back_the_first_write() {
    let mut a: i32 = 0;
    let mut b: i32 = 0;
    assert_eq!(example1(&mut a, &mut b, 3, 9), 3);
    assert_eq!(a, 3);
    assert_eq!(b, 9);
}

#[test]
fn example2_down_returns_the_value_read_first() {
    let value: i32 = 17;
    assert_eq!(example2_down(&value, |_x| {}), 17);
}

#[test]
fn iter_mut_keeps_non_negative_and_doubles_negative() {
    assert_eq!(iter_mut(5), 5);
    assert_eq!(iter_mut(0), 0);
    assert_eq!(iter_mut(-7), -14);
}

#[test]
fn divide_result_errors() {
    assert_eq!(divide_result(6, 3), Ok(2));
    assert_eq!(divide_result(7, 2), Ok(3));
    assert_eq!(divide_result(5, 0), Err(String::from("Cannot divide by zero")));
    assert_eq!(divide_result(-5, 0), Err(String::from("Cannot divide by zero")));
    assert_eq!(divide_result(-6, 3), Err(String::from("Cannot have negative values")));
    assert_eq!(divide_result(6, -3), Err(String::from("Cannot have negative values")));
}

#[test]
fn unwrap_or_else_falls_back_to_minus_one() {
    assert_eq!(unwrap_or_else(9, 3), 3);
    assert_eq!(unwrap_or_else(9, 0), -1);
    assert_eq!(unwrap_or_else(-9, 3), -1);
}

#[test]
fn f1_and_f2_stay_in_range() {
    for _ in 0..50 {
        let y1 = f1(10);
        assert!(2 <= y1 && y1 <= 12);
        let y2 = f2(20);
        assert!(2 <= y2 && y2 <= 22);
        assert_eq!(f1(0), 2);
    }
}

struct Answers {
    a_value: i32,
}

impl Test for Answers {
    fn a(&self, x: i32, _y: bool) -> i32 {
        x + self.a_value
    }

    fn b(&self) -> u8 {
        4
    }

    fn c(&self) -> i32 {
        0
    }
}

#[test]
fn mock_test_returns_what_a_returns_on_x_plus_five() {
    let m = Answers { a_value: 100 };
    assert_eq!(verify_rust::mock_test1::test(&m, 1, true), 106);
}

#[test]
fn allocator_refuses_empty_requests() {
    let a = CAllocator {};
    assert!(!a.serves(0));
    assert!(a.serves(1));
    assert!(a.serves(4096));
}

#[test]
fn allocator_copies_the_smaller_block() {
    let a = CAllocator {};
    assert_eq!(a.realloc_copy_len(16, 64), 16);
    assert_eq!(a.realloc_copy_len(64, 16), 16);
    assert_eq!(a.realloc_copy_len(8, 8), 8);
    assert_eq!(a.realloc_copy_len(0, 8), 0);
}

#[test]
fn small_harnesses_run() {
    for _ in 0..50 {
        verify_rust::enum_as_param::entrypt();
        verify_rust::option_and_then::entrypt();
        verify_rust::option_or::entrypt();
        verify_rust::option_unwrap_or::entrypt();
        verify_rust::option_double::entrypt();
        verify_rust::option_vec_map::entrypt();
        verify_rust::cfg_simplify::entrypt();
        verify_rust::pointer::entrypt();
        verify_rust::empty_print::entrypt();
        verify_rust::vec_push_pop::entrypt();
        verify_rust::vec_filter::entrypt();
        verify_rust::result_as_deref::entrypt();
        verify_rust::result_copied::entrypt();
        verify_rust::result_cloned::entrypt();
        verify_rust::result_transpose::entrypt();
        verify_rust::result_unwrap_or_else::entrypt();
        verify_rust::result_iter_mut::entrypt();
        verify_rust::strings::entrypt();
        verify_rust::string_to_string::entrypt();
        verify_rust::string_parse::entrypt();
    }
}

#[test]
fn adding_two_through_a_reference() {
    assert_eq!(verify_rust::strings::add_two_through_reference(0), 2);
    assert_eq!(verify_rust::strings::add_two_through_reference(10), 12);
    assert_eq!(verify_rust::strings::add_two_through_reference(u32::MAX - 2), u32::MAX);
}

#[test]
fn mock_call_counting() {
    assert_eq!(record_call(0, 2), (1, true));
    assert_eq!(record_call(1, 2), (2, true));
    assert_eq!(record_call(2, 2), (3, false));
    assert_eq!(record_call(0, 0), (1, false));
    assert!(called_exactly(2, 2));
    assert!(!called_exactly(1, 2));
}
