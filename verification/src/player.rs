use vstd::prelude::*;
use crate::direction::Direction;
use crate::point::Point;

verus! {

/// The heading a turn attempt leaves the snake with: an attempt to turn to
/// the direct reverse of the current heading is suppressed, any other
/// attempt takes effect.
pub open spec fn turned_direction(current: Direction, attempt: Direction) -> Direction {
    if current == attempt.reverse_spec() {
        current
    } else {
        attempt
    }
}

/// The starting heading a construction seed selects, one of the four
/// headings by the seed's remainder modulo four.
pub open spec fn direction_of_seed(seed: u32) -> Direction {
    if seed % 4 == 0 {
        Direction::Up
    } else if seed % 4 == 1 {
        Direction::Down
    } else if seed % 4 == 2 {
        Direction::Left
    } else {
        Direction::Right
    }
}

/// The player's snake: a head point, the ordered body segments from
/// newest-leading (just behind the head) to oldest-trailing, and the
/// current heading.
///
/// The snake itself performs no bounds or self-collision checking; the game
/// loop checks the next head position against the walls and the body before
/// committing a move.
#[derive(Debug)]
pub struct Snake {
    pub head: Point,
    pub body: Vec<Point>,
    pub direction: Direction,
}

impl Snake {
    /// Where the head would move to under the current heading. `Up` lowers
    /// `y` by one, `Down` raises it by one, `Left` lowers `x`, `Right`
    /// raises it (rows grow downward on the screen).
    pub open spec fn next_pos(self) -> Point {
        match self.direction {
            Direction::Up => Point { x: self.head.x, y: (self.head.y - 1) as i16 },
            Direction::Down => Point { x: self.head.x, y: (self.head.y + 1) as i16 },
            Direction::Left => Point { x: (self.head.x - 1) as i16, y: self.head.y },
            Direction::Right => Point { x: (self.head.x + 1) as i16, y: self.head.y },
        }
    }

    /// The one-step offset under the current heading stays within `i16`.
    pub open spec fn can_step(self) -> bool {
        match self.direction {
            Direction::Up => self.head.y > i16::MIN,
            Direction::Down => self.head.y < i16::MAX,
            Direction::Left => self.head.x > i16::MIN,
            Direction::Right => self.head.x < i16::MAX,
        }
    }

    /// The body after an ordinary move: the previous head becomes the first
    /// segment and the oldest segment is dropped, so the length is kept.
    pub open spec fn body_after_move(self) -> Seq<Point> {
        self.body@.insert(0, self.head).drop_last()
    }

    /// The body after a growth move: the previous head becomes the first
    /// segment and nothing is dropped, so the length grows by one.
    pub open spec fn body_after_eat(self) -> Seq<Point> {
        self.body@.insert(0, self.head)
    }

    /// A snake with its head at `start`, a body of `initial_length`
    /// segments all stacked at `start` (they unstack over the first moves),
    /// and a starting heading selected by `seed` modulo four.
    pub fn new(start: Point, initial_length: u32, seed: u32) -> (r: Snake)
        ensures
            r.head == start,
            r.direction == direction_of_seed(seed),
            r.body@.len() == initial_length as int,
            forall|i: int| 0 <= i < r.body@.len() ==> r.body@[i] == start,
    {
        let mut body: Vec<Point> = Vec::new();
        let mut i: u32 = 0;
        while i < initial_length
            invariant
                i <= initial_length,
                body@.len() == i as int,
                forall|j: int| 0 <= j < body@.len() ==> body@[j] == start,
            decreases initial_length - i,
        {
            body.push(start);
            i = i + 1;
        }
        let m = seed % 4;
        let direction = if m == 0 {
            Direction::Up
        } else if m == 1 {
            Direction::Down
        } else if m == 2 {
            Direction::Left
        } else {
            Direction::Right
        };
        Snake { head: start, body, direction }
    }

    /// Where the head would move to under the current heading, without
    /// mutating the snake: the result is a function of the current state
    /// alone, so repeated calls agree and leave `head` and `body` as they
    /// are.
    pub fn next_position(&self) -> (r: Point)
        requires
            self.can_step(),
        ensures
            r == self.next_pos(),
    {
        match self.direction {
            Direction::Up => Point { x: self.head.x, y: self.head.y - 1 },
            Direction::Down => Point { x: self.head.x, y: self.head.y + 1 },
            Direction::Left => Point { x: self.head.x - 1, y: self.head.y },
            Direction::Right => Point { x: self.head.x + 1, y: self.head.y },
        }
    }

    /// True when `p` lies on some body segment.
    pub fn body_contains(&self, p: Point) -> (r: bool)
        ensures
            r == self.body@.contains(p),
    {
        let mut i: usize = 0;
        while i < self.body.len()
            invariant
                i <= self.body@.len(),
                forall|j: int| 0 <= j < i as int ==> self.body@[j] != p,
            decreases self.body@.len() - i as int,
        {
            if self.body[i] == p {
                return true;
            }
            i = i + 1;
        }
        false
    }

    /// Attempt to set the heading to `d`. The attempt is suppressed when
    /// `d` is the direct reverse of the current heading; head and body are
    /// never touched.
    pub fn try_turn(&mut self, d: Direction)
        ensures
            final(self).direction == turned_direction(old(self).direction, d),
            final(self).head == old(self).head,
            final(self).body@ == old(self).body@,
    {
        if !(self.direction == d.reverse()) {
            self.direction = d;
        }
    }

    /// Commit the next position as the new head without growing: the
    /// previous head becomes the first body segment and the oldest segment
    /// is dropped, so the body length is preserved.
    pub fn move_forward(&mut self)
        requires
            old(self).can_step(),
        ensures
            final(self).head == old(self).next_pos(),
            final(self).body@ == old(self).body_after_move(),
            final(self).body@.len() == old(self).body@.len(),
            final(self).direction == old(self).direction,
    {
        let new_head = self.next_position();
        self.body.insert(0, self.head);
        self.body.pop();
        self.head = new_head;
    }

    /// Commit the next position as the new head and grow: the previous head
    /// becomes the first body segment and no segment is dropped, so the
    /// body length grows by exactly one.
    pub fn move_forward_and_eat(&mut self)
        requires
            old(self).can_step(),
            old(self).body@.len() < usize::MAX,
        ensures
            final(self).head == old(self).next_pos(),
            final(self).body@ == old(self).body_after_eat(),
            final(self).body@.len() == old(self).body@.len() + 1,
            final(self).direction == old(self).direction,
    {
        let new_head = self.next_position();
        self.body.insert(0, self.head);
        self.head = new_head;
    }
}

/// An attempt to turn to the direct reverse of the current heading leaves
/// the heading unchanged, whatever the current heading is.
pub proof fn lemma_reversal_rejected(d: Direction)
    ensures
        turned_direction(d, d.reverse_spec()) == d,
{
}

} // verus!
