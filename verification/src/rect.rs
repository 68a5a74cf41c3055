//! Rectangles: area, containment, squares.

use vstd::prelude::*;

verus! {

/// A rectangle, by its side lengths.
#[derive(Clone, Copy, Debug, PartialEq, Eq, Structural)]
pub struct Rectangle {
    pub width: u32,
    pub height: u32,
}

impl Rectangle {
    /// The rectangle's area.
    pub fn area(&self) -> (a: u32)
        requires
            self.width * self.height <= u32::MAX,
        ensures
            a == self.width * self.height,
    {
        proof {
            assert(self.height * self.width == self.width * self.height) by (nonlinear_arith);
        }
        self.height * self.width
    }

    /// Whether `other` fits strictly inside `self`.
    pub fn can_hold(&self, other: &Rectangle) -> (b: bool)
        ensures
            b == (self.width > other.width && self.height > other.height),
    {
        self.width > other.width && self.height > other.height
    }

    /// A square with the given side length.
    pub fn square(size: u32) -> (r: Rectangle)
        ensures
            r == (Rectangle { width: size, height: size }),
    {
        Rectangle { width: size, height: size }
    }
}

} // verus!
