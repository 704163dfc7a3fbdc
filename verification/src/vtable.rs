//! The data behind a hand-built trait object, and the three operations that
//! its method table points at.
use vstd::prelude::*;

verus! {

/// The two numbers that the operations work on.
#[derive(Debug, Clone, Copy, PartialEq, Eq, Structural)]
pub struct Data {
    pub a: i32,
    pub b: i32,
}

/// The sum of the two numbers, which must fit in an `i32`.
pub fn add(s: &Data) -> (sum: i32)
    requires
        i32::MIN <= s.a + s.b <= i32::MAX,
    ensures
        sum == s.a + s.b,
{
    s.a + s.b
}

/// The difference of the two numbers, which must fit in an `i32`.
pub fn sub(s: &Data) -> (difference: i32)
    requires
        i32::MIN <= s.a - s.b <= i32::MAX,
    ensures
        difference == s.a - s.b,
{
    s.a - s.b
}

/// The product of the two numbers, which must fit in an `i32`.
pub fn mul(s: &Data) -> (product: i32)
    requires
        i32::MIN <= s.a * s.b <= i32::MAX,
    ensures
        product == s.a * s.b,
{
    s.a * s.b
}

} // verus!
