#[test]
fn borsh_primitives_round_trip() {
    for _ in 0..50 {
        verify_rust::borsh_primitives::entrypt();
    }
}

#[test]
fn borsh_option_round_trip() {
    for _ in 0..50 {
        verify_rust::borsh_option::entrypt();
    }
}

#[test]
fn borsh_fields_round_trip() {
    for _ in 0..50 {
        verify_rust::borsh_structs::entrypt();
    }
}

#[test]
fn borsh_string_and_array_round_trip() {
    for _ in 0..50 {
        verify_rust::borsh_string_array::entrypt();
    }
}
