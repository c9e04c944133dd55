//! An axis-aligned rectangle measured in whole pixels, with its area and a
//! containment check.

use vstd::prelude::*;

verus! {

/// A rectangle given by its side lengths.
#[derive(Clone, Copy, Debug, PartialEq, Eq, Structural)]
pub struct Rectangle {
    pub width: u32,
    pub height: u32,
}

impl Rectangle {
    /// The enclosed area.
    pub fn area(&self) -> (a: u32)
        requires
            self.width * self.height <= u32::MAX,
        ensures
            a == self.width * self.height,
    {
        self.width * self.height
    }

    /// Whether `other` fits strictly inside this rectangle.
    pub fn can_hold(&self, other: &Rectangle) -> (r: bool)
        ensures
            r == (self.width > other.width && self.height > other.height),
    {
        self.width > other.width && self.height > other.height
    }

    /// A square of the given side length.
    pub fn square(size: u32) -> (r: Rectangle)
        ensures
            r == (Rectangle { width: size, height: size }),
    {
        Rectangle { height: size, width: size }
    }
}

/// The area again, as a free function over a borrowed rectangle.
pub fn _area(rectangle: &Rectangle) -> (a: u32)
    requires
        rectangle.height * rectangle.width <= u32::MAX,
    ensures
        a == rectangle.height * rectangle.width,
{
    rectangle.height * rectangle.width
}

} // verus!
