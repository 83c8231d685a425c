//! A method and a function with their tests, and the functions that walk
//! through how tests are written.

use vstd::prelude::*;

verus! {

/// Walks through how a test is written and run.
pub fn writing_automated_tests() {
    anatomy_of_a_test_fn()
}

/// A function becomes a test with `#[test]` on the line before it; `cargo
/// test` runs them all.
fn anatomy_of_a_test_fn() {
}

/// The sum of two numbers.
pub fn adder(num1: i32, num2: i32) -> (r: i32)
    requires
        i32::MIN <= num1 + num2 <= i32::MAX,
    ensures
        r == num1 + num2,
{
    num1 + num2
}

/// A rectangle given by its two sides.
#[derive(Debug)]
pub struct Rectangle {
    pub length: u32,
    pub width: u32,
}

impl Rectangle {
    /// Whether `other` fits inside this rectangle, strictly smaller on both
    /// sides.
    pub fn can_hold(&self, other: &Rectangle) -> (r: bool)
        ensures
            r == (self.length > other.length && self.width > other.width),
    {
        self.length > other.length && self.width > other.width
    }
}

} // verus!
