#[test]
fn smallvec_harnesses_run() {
    for _ in 0..200 {
        verify_rust::smallvec_basic::test_clear();
        verify_rust::smallvec_basic::test_extend_from_slice();
        verify_rust::smallvec_basic::test_from_buf();
        verify_rust::smallvec_basic::test_from_buf_and_len();
        verify_rust::smallvec_basic::test_from_const();
        verify_rust::smallvec_basic::test_from_elem();
        verify_rust::smallvec_basic::test_from_slice();
        verify_rust::smallvec_basic::test_grow();
        verify_rust::smallvec_basic::test_insert();
        verify_rust::smallvec_basic::test_insert_from_slice();
        verify_rust::smallvec_basic::test_new();
        verify_rust::smallvec_basic::test_new_const();
        verify_rust::smallvec_basic::test_pop();
        verify_rust::smallvec_basic::test_reserve_exact();
        verify_rust::smallvec_basic::test_truncate();
        verify_rust::smallvec_bound2::entrypt();
        verify_rust::smallvec_bound4::entrypt();
        verify_rust::smallvec_bound8::entrypt();
    }
}

#[test]
fn tinyvec_harnesses_run() {
    for _ in 0..200 {
        verify_rust::tinyvec_arrayvec::entrypt();
        verify_rust::tinyvec_remove_error::entrypt();
    }
}

#[test]
fn tinyvec_capacity_is_capped() {
    verify_rust::tinyvec_capacity_error::entrypt();
}
