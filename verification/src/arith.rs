//! Integer helpers: small additions on `i32`, plain and through `Option`.

use vstd::prelude::*;

verus! {

/// Adds two to `a`.
pub fn add_two(a: i32) -> (r: i32)
    requires
        a + 2 <= i32::MAX,
    ensures
        r == a + 2,
{
    internal_adder(a, 2)
}

/// Adds `a` and `b`.
pub fn internal_adder(a: i32, b: i32) -> (r: i32)
    requires
        i32::MIN <= a + b <= i32::MAX,
    ensures
        r == a + b,
{
    a + b
}

/// Adds one inside an `Option`; `None` stays `None`.
pub fn plus_one(x: Option<i32>) -> (r: Option<i32>)
    requires
        x is Some ==> x->0 < i32::MAX,
    ensures
        match x {
            None => r is None,
            Some(v) => r is Some && r->0 == v + 1,
        },
{
    match x {
        None => None,
        Some(x) => Some(x + 1),
    }
}

/// Adds five to `x`.
pub fn plus_five(x: i32) -> (r: i32)
    requires
        x + 5 <= i32::MAX,
    ensures
        r == x + 5,
{
    x + 5
}

} // verus!
