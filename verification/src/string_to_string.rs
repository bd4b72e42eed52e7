//! Two strings made from the same literal are equal.
use vstd::prelude::*;

verus! {

/// `"ab".to_string()` equals `"ab".to_string()`.
pub fn entrypt() {
    broadcast use vstd::string::to_string_from_display_ensures_for_str;

    let x: String = "ab".to_string();
    let y: String = "ab".to_string();
    let same: bool = x == y;
    assert(same);
}

} // verus!
