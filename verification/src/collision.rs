use vstd::prelude::*;

use crate::types::{fits_i32, Vec2I};

verus! {

/// An axis-aligned box in whole dots.
#[derive(Clone, Copy, Debug, PartialEq, Eq, Structural)]
pub struct CollBox {
    pub top_left: Vec2I,
    pub size: Vec2I,
}

/// Whether two boxes overlap.
pub open spec fn overlaps(a: CollBox, b: CollBox) -> bool {
    &&& a.top_left.x < b.top_left.x + b.size.x
    &&& b.top_left.x < a.top_left.x + a.size.x
    &&& a.top_left.y < b.top_left.y + b.size.y
    &&& b.top_left.y < a.top_left.y + a.size.y
}

/// Boxes whose far corners fit in an `i32`.
pub open spec fn box_ok(a: CollBox) -> bool {
    fits_i32(a.top_left.x + a.size.x) && fits_i32(a.top_left.y + a.size.y)
}

impl CollBox {
    /// Whether the two boxes overlap.
    pub fn check_collision(&self, target: &CollBox) -> (hit: bool)
        requires
            box_ok(*self),
            box_ok(*target),
        ensures
            hit == overlaps(*self, *target),
    {
        self.top_left.x < target.top_left.x + target.size.x
            && target.top_left.x < self.top_left.x + self.size.x
            && self.top_left.y < target.top_left.y + target.size.y
            && target.top_left.y < self.top_left.y + self.size.y
    }
}

/// Overlap does not depend on the order of the boxes.
pub proof fn lemma_overlap_symmetric(a: CollBox, b: CollBox)
    ensures
        overlaps(a, b) == overlaps(b, a),
{
}

} // verus!
