//! Facts about the area that hold for every rectangle.

use vstd::prelude::*;
use crate::rectangle::{area_of, spec_get_area, Rectangle};

verus! {

/// The area does not depend on the order of the two sides.
pub proof fn lemma_area_commutative(a: nat, b: nat)
    ensures
        area_of(a, b) == area_of(b, a),
{
    assert(a * b == b * a) by (nonlinear_arith);
}

/// Exchanging the length and the width of a rectangle leaves its area
/// unchanged, in either call form.
pub proof fn lemma_swapped_sides_same_area(length: usize, width: usize)
    ensures
        (Rectangle { length: width, width: length }).spec_area()
            == (Rectangle { length, width }).spec_area(),
        spec_get_area(Rectangle { length: width, width: length })
            == spec_get_area(Rectangle { length, width }),
{
    lemma_area_commutative(length as nat, width as nat);
}

/// The method form and the free-function form give the same area for every
/// rectangle.
pub proof fn lemma_call_forms_agree(rec: Rectangle)
    ensures
        rec.spec_area() == spec_get_area(rec),
{
    lemma_area_commutative(rec.width as nat, rec.length as nat);
}

/// A rectangle with a side of zero has area zero in either call form, and is
/// always admitted by both.
pub proof fn lemma_zero_side_zero_area(rec: Rectangle)
    requires
        rec.length == 0 || rec.width == 0,
    ensures
        rec.area_fits(),
        rec.spec_area() == 0,
        spec_get_area(rec) == 0,
{
    assert(rec.width * rec.length == 0) by (nonlinear_arith)
        requires
            rec.length == 0 || rec.width == 0,
    ;
    lemma_call_forms_agree(rec);
}

} // verus!
