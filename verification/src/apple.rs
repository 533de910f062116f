use vstd::prelude::*;
use crate::point::Point;

verus! {

/// The food item: a single point on the playfield. An apple is created at a
/// random in-bounds point and replaced by a fresh one the instant the
/// snake's next head position equals it.
#[derive(Clone, Copy, PartialEq, Eq, Structural, Debug)]
pub struct Apple {
    pub position: Point,
}

impl Apple {
    pub fn new(position: Point) -> (r: Apple)
        ensures
            r.position == position,
    {
        Apple { position }
    }
}

/// The glyph an apple is rendered as.
pub fn apple_char() -> (r: char)
    ensures
        r == '*',
{
    '*'
}

} // verus!
