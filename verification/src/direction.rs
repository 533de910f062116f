use vstd::prelude::*;

verus! {

/// Compass heading of the snake.
///
/// A live snake never has its heading set to the direct reverse of its
/// current heading within a single tick; the input handler suppresses such
/// a transition (see `Snake::try_turn`).
#[derive(Clone, Copy, PartialEq, Eq, Structural, Debug)]
pub enum Direction {
    Up,
    Down,
    Left,
    Right,
}

impl Direction {
    /// The 180-degree opposite heading: `Up <-> Down`, `Left <-> Right`.
    pub open spec fn reverse_spec(self) -> Direction {
        match self {
            Direction::Up => Direction::Down,
            Direction::Down => Direction::Up,
            Direction::Left => Direction::Right,
            Direction::Right => Direction::Left,
        }
    }

    pub fn reverse(self) -> (r: Direction)
        ensures
            r == self.reverse_spec(),
    {
        match self {
            Direction::Up => Direction::Down,
            Direction::Down => Direction::Up,
            Direction::Left => Direction::Right,
            Direction::Right => Direction::Left,
        }
    }
}

/// Reversal is an involution: taking the opposite heading twice yields the
/// original heading.
pub proof fn lemma_reverse_involution(d: Direction)
    ensures
        d.reverse_spec().reverse_spec() == d,
{
}

} // verus!
