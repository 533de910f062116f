use vstd::prelude::*;

verus! {

/// A 2D integer coordinate on the terminal grid. `x` grows to the right,
/// `y` grows downward (row order), matching how the playfield is rendered.
#[derive(Clone, Copy, PartialEq, Eq, Structural, Debug)]
pub struct Point {
    pub x: i16,
    pub y: i16,
}

/// Relies on rand::random_range (thread-local generator): for a non-empty
/// half-open integer range the sample lies within it; the call panics only
/// on an empty range, which the precondition rules out. Nothing more is
/// assumed: the draw may differ between two calls on the same arguments.
#[verifier::external_body]
fn random_i16_in_range(min: i16, max: i16) -> (r: i16)
    requires
        min < max,
    ensures
        min <= r < max,
{
    rand::random_range(min..max)
}

impl Point {
    /// True when the point lies in `[x_min, x_max) x [y_min, y_max)`.
    pub open spec fn in_box(self, x_min: i16, x_max: i16, y_min: i16, y_max: i16) -> bool {
        x_min <= self.x < x_max && y_min <= self.y < y_max
    }

    pub fn new(x: i16, y: i16) -> (r: Point)
        ensures
            r == (Point { x, y }),
    {
        Point { x, y }
    }

    /// A point with `x` drawn uniformly from `[x_min, x_max)` and `y` from
    /// `[y_min, y_max)`. Both ranges must be non-empty; callers pass margins
    /// that keep the result inside the playfield interior.
    pub fn random(x_min: i16, x_max: i16, y_min: i16, y_max: i16) -> (r: Point)
        requires
            x_min < x_max,
            y_min < y_max,
        ensures
            r.in_box(x_min, x_max, y_min, y_max),
    {
        Point {
            x: random_i16_in_range(x_min, x_max),
            y: random_i16_in_range(y_min, y_max),
        }
    }
}

} // verus!
