//! Rectangles with whole-number sides.

use vstd::prelude::*;

verus! {

/// A rectangle, measured in whole units.
#[derive(Debug)]
pub struct Rectangle {
    pub width: u32,
    pub height: u32,
}

impl Rectangle {
    /// Multiplies the sides.
    pub fn area(&self) -> (r: u32)
        requires
            self.width * self.height <= u32::MAX,
        ensures
            r == self.width * self.height,
    {
        self.width * self.height
    }

    /// Whether the rectangle has a nonzero width.
    pub fn width(&self) -> (r: bool)
        ensures
            r == (self.width > 0),
    {
        self.width > 0
    }

    /// Whether the other rectangle fits strictly inside this one.
    pub fn can_hold(&self, other: &Rectangle) -> (r: bool)
        ensures
            r == (self.width > other.width && self.height > other.height),
    {
        self.width > other.width && self.height > other.height
    }

    /// Builds a square with the given side.
    pub fn square(size: u32) -> (r: Self)
        ensures
            r.width == size,
            r.height == size,
    {
        Self { width: size, height: size }
    }
}

/// Multiplies the sides of the given rectangle.
pub fn area(rect: &Rectangle) -> (r: u32)
    requires
        rect.width * rect.height <= u32::MAX,
    ensures
        r == rect.width * rect.height,
{
    rect.width * rect.height
}

} // verus!
