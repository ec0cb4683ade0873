//! The rectangle type, the mathematical model of its area, and the two
//! executable call forms.

use vstd::prelude::*;

verus! {

/// The area of a rectangle whose sides measure `a` and `b`: their product,
/// taken over the natural numbers, where nothing overflows.
pub open spec fn area_of(a: nat, b: nat) -> nat {
    a * b
}

/// A rectangle with whole-number sides.
///
/// Any pair of sides is a valid rectangle; a side of zero is allowed and gives
/// an empty rectangle.
#[derive(Debug)]
pub struct Rectangle {
    pub length: usize,
    pub width: usize,
}

impl Rectangle {
    /// What [`Rectangle::area`] computes: the exact area of this rectangle.
    pub open spec fn spec_area(self) -> nat {
        area_of(self.width as nat, self.length as nat)
    }

    /// Whether the exact area of this rectangle can be held in a `usize`.
    pub open spec fn area_fits(self) -> bool {
        self.spec_area() <= usize::MAX
    }

    /// The area of this rectangle, in method form.
    ///
    /// Overflow policy: the product is never wrapped, saturated or checked at
    /// run time. A rectangle whose area exceeds `usize::MAX` is ruled out by
    /// the precondition, so for every admitted rectangle the result is the
    /// exact product of its sides.
    pub fn area(&self) -> (a: usize)
        requires
            self.area_fits(),
        ensures
            a == self.spec_area(),
            a == self.width * self.length,
    {
        self.width * self.length
    }
}

/// What [`get_area`] computes: the exact area of `rec`.
pub open spec fn spec_get_area(rec: Rectangle) -> nat {
    area_of(rec.length as nat, rec.width as nat)
}

/// The area of `rec`, in free-function form.
///
/// Follows the same overflow policy as [`Rectangle::area`]: rectangles whose
/// area exceeds `usize::MAX` are ruled out by the precondition, and for every
/// admitted rectangle the result is the exact product of its sides.
pub fn get_area(rec: &Rectangle) -> (a: usize)
    requires
        rec.area_fits(),
    ensures
        a == spec_get_area(*rec),
        a == rec.length * rec.width,
{
    rec.length * rec.width
}

} // verus!
