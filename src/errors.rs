//! How errors are met: the panics that end a program.

use vstd::prelude::*;

verus! {

/// Walks through unrecoverable errors.
pub fn error_handling() {
    panic()
}

/// A vector of three numbers; reading past its end, as `v[99]` would, is
/// where a program panics.
fn panic() {
    let v: Vec<i32> = vec![1, 2, 3];
}

} // verus!
