use vstd::prelude::*;
use crate::apple::Apple;
use crate::direction::Direction;
use crate::player::{turned_direction, Snake};
use crate::point::Point;

verus! {

/// A playing snake moves once every this many rendered frames, decoupling
/// the render rate from the move rate.
pub const FRAMES_PER_MOVE: u8 = 4;

/// Margin kept from each playfield edge when a random point is drawn for
/// the snake's start or a fresh apple.
pub const SPAWN_MARGIN: i16 = 5;

/// Number of body segments a new game's snake starts with.
pub const INITIAL_LENGTH: u32 = 3;

/// A key the game reacts to, as reported by the input backend.
#[derive(Clone, Copy, PartialEq, Eq, Structural, Debug)]
pub enum Key {
    Up,
    Down,
    Left,
    Right,
    Escape,
    Space,
    Other,
}

/// What one input poll produced: a key press, no event within the timeout,
/// or a backend failure (which is fatal).
#[derive(Clone, Copy, PartialEq, Eq, Structural, Debug)]
pub enum Input {
    Pressed(Key),
    Nothing,
    Failed,
}

/// What a move tick decided: the move was refused because it would collide
/// (the game is over), committed onto the apple (`persist` carries a new
/// highscore to store, if the score just exceeded it), or committed onto a
/// free cell.
#[derive(Clone, Copy, PartialEq, Eq, Debug)]
pub enum MoveOutcome {
    GameOver,
    Ate { persist: Option<u32> },
    Moved,
}

/// What one rendered frame decided: leave the game, advance the frame
/// counter only, or evaluate a move.
#[derive(Clone, Copy, PartialEq, Eq, Debug)]
pub enum FrameOutcome {
    Quit,
    Idle,
    Move(MoveOutcome),
}

/// The heading an arrow key selects. The vertical arrows are crossed: the
/// up arrow selects the heading labeled `Down` and the down arrow the
/// heading labeled `Up`. This mirrors the observed behavior and is kept
/// deliberately rather than corrected.
pub open spec fn key_intent(k: Key) -> Option<Direction> {
    match k {
        Key::Up => Some(Direction::Down),
        Key::Down => Some(Direction::Up),
        Key::Left => Some(Direction::Left),
        Key::Right => Some(Direction::Right),
        _ => None,
    }
}

/// True when the input ends the playing state: an Escape press or a
/// backend failure, both treated as fatal.
pub open spec fn input_quits(input: Input) -> bool {
    input == Input::Pressed(Key::Escape) || input == Input::Failed
}

/// The heading after one input is processed: an arrow key attempts a turn
/// (suppressed when it is the direct reverse), everything else leaves the
/// heading alone.
pub open spec fn updated_direction(d: Direction, input: Input) -> Direction {
    match input {
        Input::Pressed(k) => match key_intent(k) {
            Some(a) => turned_direction(d, a),
            None => d,
        },
        _ => d,
    }
}

/// The score after one eat event.
pub open spec fn bumped_score(score: u32) -> u32 {
    (score + 1) as u32
}

/// The stored highscore after one eat event at the given score: it is
/// raised to the new score exactly when that exceeds it.
pub open spec fn bumped_highscore(score: u32, high: u32) -> u32 {
    if score + 1 > high {
        (score + 1) as u32
    } else {
        high
    }
}

/// True when the point sits on the playfield boundary the game treats as a
/// wall: the leftmost column, the column just inside the right edge, the
/// row below the score line, or the row just inside the bottom edge.
pub open spec fn hits_wall(p: Point, width: i16, height: i16) -> bool {
    p.x == 0 || p.x + 1 == width || p.y == 1 || p.y + 1 == height
}

/// True when the point lies strictly inside the walls: `x` in
/// `[1, width - 2]` and `y` in `[2, height - 2]`.
pub open spec fn in_interior(p: Point, width: i16, height: i16) -> bool {
    1 <= p.x && p.x + 1 < width && 2 <= p.y && p.y + 1 < height
}

/// What a blocking screen (intro or game over) does with one input.
#[derive(Clone, Copy, PartialEq, Eq, Structural, Debug)]
pub enum ScreenAction {
    Stay,
    Continue,
    Abort,
}

/// The intro screen's transition: Space continues into play, Escape or a
/// backend failure aborts the process, anything else keeps waiting.
pub open spec fn intro_action_spec(input: Input) -> ScreenAction {
    match input {
        Input::Pressed(Key::Space) => ScreenAction::Continue,
        Input::Pressed(Key::Escape) => ScreenAction::Abort,
        Input::Failed => ScreenAction::Abort,
        _ => ScreenAction::Stay,
    }
}

pub fn intro_action(input: Input) -> (r: ScreenAction)
    ensures
        r == intro_action_spec(input),
{
    match input {
        Input::Pressed(Key::Space) => ScreenAction::Continue,
        Input::Pressed(Key::Escape) => ScreenAction::Abort,
        Input::Failed => ScreenAction::Abort,
        _ => ScreenAction::Stay,
    }
}

/// The game-over screen's transition: only Escape (or a backend failure)
/// is handled, ending the process; there is no restart path.
pub open spec fn game_over_action_spec(input: Input) -> ScreenAction {
    match input {
        Input::Pressed(Key::Escape) => ScreenAction::Abort,
        Input::Failed => ScreenAction::Abort,
        _ => ScreenAction::Stay,
    }
}

pub fn game_over_action(input: Input) -> (r: ScreenAction)
    ensures
        r == game_over_action_spec(input),
{
    match input {
        Input::Pressed(Key::Escape) => ScreenAction::Abort,
        Input::Failed => ScreenAction::Abort,
        _ => ScreenAction::Stay,
    }
}

/// One running game: the snake, the apple, the running score, the best
/// score seen so far, the playfield dimensions, and the frame counter that
/// schedules moves.
#[derive(Debug)]
pub struct Game {
    pub snake: Snake,
    pub apple: Apple,
    pub score: u32,
    pub highscore: u32,
    pub width: i16,
    pub height: i16,
    pub move_counter: u8,
}

impl Game {
    /// Well-formedness kept across every frame: the playfield leaves room
    /// for the spawn margins, the head sits strictly inside the walls, the
    /// frame counter never passes its period, and the running score never
    /// exceeds the highscore.
    pub open spec fn wf(self) -> bool {
        &&& self.width >= 2 * SPAWN_MARGIN + 1
        &&& self.height >= 2 * SPAWN_MARGIN + 1
        &&& in_interior(self.snake.head, self.width, self.height)
        &&& self.move_counter <= FRAMES_PER_MOVE
        &&& self.score <= self.highscore
    }

    /// True when the point lies in the box random spawns are drawn from:
    /// the playfield inset by the spawn margin on every side.
    pub open spec fn in_spawn_box(self, p: Point) -> bool {
        p.in_box(
            SPAWN_MARGIN,
            (self.width - SPAWN_MARGIN) as i16,
            SPAWN_MARGIN,
            (self.height - SPAWN_MARGIN) as i16,
        )
    }

    /// True when committing the pending move would collide: the next head
    /// position lies on a body segment or on a wall.
    pub open spec fn collides(self) -> bool {
        self.snake.body@.contains(self.snake.next_pos())
            || hits_wall(self.snake.next_pos(), self.width, self.height)
    }

    /// True when the pending move lands on the apple (and does not collide).
    pub open spec fn eats(self) -> bool {
        !self.collides() && self.snake.next_pos() == self.apple.position
    }

    /// This game with the heading replaced by what the input selects.
    pub open spec fn after_input(self, input: Input) -> Game {
        Game {
            snake: Snake {
                direction: updated_direction(self.snake.direction, input),
                ..self.snake
            },
            ..self
        }
    }

    /// This game with the frame counter replaced.
    pub open spec fn with_counter(self, c: u8) -> Game {
        Game { move_counter: c, ..self }
    }
}

/// How one move tick relates the state before (`pre`) to the state after
/// (`post`) and its outcome `r`:
/// - the outcome is `GameOver` exactly when the pending move would collide,
///   and then nothing is committed;
/// - on an apple hit the snake grows by one, the score rises by one, the
///   highscore is raised when passed (and handed out for persisting), and a
///   fresh apple is drawn inside the spawn box;
/// - otherwise the snake advances at constant length and all else is kept.
/// In every case the new head is the next position computed beforehand, and
/// heading, frame counter and dimensions are untouched.
pub open spec fn move_step_rel(pre: Game, post: Game, r: MoveOutcome) -> bool {
    &&& (r == MoveOutcome::GameOver <==> pre.collides())
    &&& (pre.collides() ==> {
        &&& post.snake.head == pre.snake.head
        &&& post.snake.body@ == pre.snake.body@
        &&& post.apple == pre.apple
        &&& post.score == pre.score
        &&& post.highscore == pre.highscore
    })
    &&& (pre.eats() ==> {
        &&& r == (MoveOutcome::Ate {
            persist: if pre.score + 1 > pre.highscore {
                Some(bumped_score(pre.score))
            } else {
                None
            },
        })
        &&& post.snake.head == pre.snake.next_pos()
        &&& post.snake.body@ == pre.snake.body_after_eat()
        &&& post.snake.body@.len() == pre.snake.body@.len() + 1
        &&& post.score == bumped_score(pre.score)
        &&& post.highscore == bumped_highscore(pre.score, pre.highscore)
        &&& post.in_spawn_box(post.apple.position)
    })
    &&& (!pre.collides() && !pre.eats() ==> {
        &&& r == MoveOutcome::Moved
        &&& post.snake.head == pre.snake.next_pos()
        &&& post.snake.body@ == pre.snake.body_after_move()
        &&& post.snake.body@.len() == pre.snake.body@.len()
        &&& post.apple == pre.apple
        &&& post.score == pre.score
        &&& post.highscore == pre.highscore
    })
    &&& post.snake.direction == pre.snake.direction
    &&& post.move_counter == pre.move_counter
    &&& post.width == pre.width
    &&& post.height == pre.height
}

impl Game {
    /// A new game on a `width` x `height` playfield: score zero, the given
    /// stored highscore, the snake placed at a random point inside the
    /// spawn box with its starting heading drawn from `seed`, and the apple
    /// at an independent random point inside the spawn box.
    pub fn new(width: i16, height: i16, highscore: u32, seed: u32) -> (r: Game)
        requires
            width >= 2 * SPAWN_MARGIN + 1,
            height >= 2 * SPAWN_MARGIN + 1,
        ensures
            r.wf(),
            r.score == 0,
            r.highscore == highscore,
            r.width == width,
            r.height == height,
            r.move_counter == 0,
            r.snake.body@.len() == INITIAL_LENGTH as int,
            r.snake.direction == crate::player::direction_of_seed(seed),
            r.in_spawn_box(r.snake.head),
            r.in_spawn_box(r.apple.position),
    {
        let start = Point::random(
            SPAWN_MARGIN,
            width - SPAWN_MARGIN,
            SPAWN_MARGIN,
            height - SPAWN_MARGIN,
        );
        let snake = Snake::new(start, INITIAL_LENGTH, seed);
        let apple = Apple::new(Point::random(
            SPAWN_MARGIN,
            width - SPAWN_MARGIN,
            SPAWN_MARGIN,
            height - SPAWN_MARGIN,
        ));
        Game { snake, apple, score: 0, highscore, width, height, move_counter: 0 }
    }

    /// Process one polled input: Escape or a backend failure quits; an
    /// arrow key attempts a turn on the snake (suppressed when it is the
    /// direct reverse of the current heading); anything else is ignored.
    /// Nothing but the heading is ever touched.
    pub fn handle_input(&mut self, input: Input) -> (quit: bool)
        ensures
            quit == input_quits(input),
            final(self).snake.direction == updated_direction(old(self).snake.direction, input),
            final(self).snake.head == old(self).snake.head,
            final(self).snake.body@ == old(self).snake.body@,
            final(self).apple == old(self).apple,
            final(self).score == old(self).score,
            final(self).highscore == old(self).highscore,
            final(self).width == old(self).width,
            final(self).height == old(self).height,
            final(self).move_counter == old(self).move_counter,
    {
        match input {
            Input::Pressed(k) => match k {
                Key::Escape => true,
                Key::Up => {
                    self.snake.try_turn(Direction::Down);
                    false
                },
                Key::Down => {
                    self.snake.try_turn(Direction::Up);
                    false
                },
                Key::Left => {
                    self.snake.try_turn(Direction::Left);
                    false
                },
                Key::Right => {
                    self.snake.try_turn(Direction::Right);
                    false
                },
                _ => false,
            },
            Input::Failed => true,
            Input::Nothing => false,
        }
    }

    /// Evaluate one move: compute the next head position, refuse it (game
    /// over) when it lies on the body or a wall, commit it with growth,
    /// score bump, highscore update and a fresh random apple when it lies
    /// on the apple, and commit it at constant length otherwise.
    pub fn move_tick(&mut self) -> (r: MoveOutcome)
        requires
            old(self).wf(),
            old(self).score < u32::MAX,
            old(self).snake.body@.len() < usize::MAX,
        ensures
            final(self).wf(),
            move_step_rel(*old(self), *final(self), r),
    {
        let next_pos = self.snake.next_position();
        if self.snake.body_contains(next_pos) || next_pos.x == 0 || next_pos.x + 1 == self.width
            || next_pos.y == 1 || next_pos.y + 1 == self.height {
            MoveOutcome::GameOver
        } else if next_pos == self.apple.position {
            self.snake.move_forward_and_eat();
            self.apple = Apple::new(Point::random(
                SPAWN_MARGIN,
                self.width - SPAWN_MARGIN,
                SPAWN_MARGIN,
                self.height - SPAWN_MARGIN,
            ));
            self.score = self.score + 1;
            let persist = if self.score > self.highscore {
                self.highscore = self.score;
                Some(self.score)
            } else {
                None
            };
            MoveOutcome::Ate { persist }
        } else {
            self.snake.move_forward();
            MoveOutcome::Moved
        }
    }

    /// One rendered frame of the playing state: process the polled input
    /// (quitting on Escape or a backend failure), then either advance the
    /// frame counter, or — on every fourth frame — reset it and evaluate a
    /// move.
    pub fn frame_tick(&mut self, input: Input) -> (r: FrameOutcome)
        requires
            old(self).wf(),
            old(self).score < u32::MAX,
            old(self).snake.body@.len() < usize::MAX,
        ensures
            final(self).wf(),
            r == FrameOutcome::Quit <==> input_quits(input),
            input_quits(input) ==> *final(self) == *old(self),
            !input_quits(input) && old(self).move_counter == FRAMES_PER_MOVE ==> (r matches
                FrameOutcome::Move(o) && move_step_rel(
                old(self).after_input(input).with_counter(0),
                *final(self),
                o,
            )),
            !input_quits(input) && old(self).move_counter != FRAMES_PER_MOVE ==> {
                &&& r == FrameOutcome::Idle
                &&& final(self).snake.direction == updated_direction(
                    old(self).snake.direction,
                    input,
                )
                &&& final(self).snake.head == old(self).snake.head
                &&& final(self).snake.body@ == old(self).snake.body@
                &&& final(self).apple == old(self).apple
                &&& final(self).score == old(self).score
                &&& final(self).highscore == old(self).highscore
                &&& final(self).width == old(self).width
                &&& final(self).height == old(self).height
                &&& final(self).move_counter == old(self).move_counter + 1
            },
    {
        match input {
            Input::Pressed(Key::Escape) => {
                return FrameOutcome::Quit;
            },
            Input::Failed => {
                return FrameOutcome::Quit;
            },
            _ => {},
        }
        self.handle_input(input);
        if self.move_counter == FRAMES_PER_MOVE {
            self.move_counter = 0;
            let o = self.move_tick();
            FrameOutcome::Move(o)
        } else {
            self.move_counter = self.move_counter + 1;
            FrameOutcome::Idle
        }
    }
}

/// For a head strictly inside the walls, the wall check on the next head
/// position fails exactly when that position leaves the interior: any next
/// position with `x` or `y` outside `[1, width - 2] x [2, height - 2]` is
/// caught as a wall hit and triggers the game-over transition.
pub proof fn lemma_wall_check_is_boundary_check(s: Snake, width: i16, height: i16)
    requires
        in_interior(s.head, width, height),
    ensures
        hits_wall(s.next_pos(), width, height) <==> !in_interior(s.next_pos(), width, height),
{
}

/// The score and highscore after `k` further eat events, starting from the
/// given pair; each event bumps the score and raises the highscore when
/// passed, exactly as a move tick onto the apple does.
pub open spec fn eats_from(score: u32, high: u32, k: nat) -> (u32, u32)
    decreases k,
{
    if k == 0 {
        (score, high)
    } else {
        let prev = eats_from(score, high, (k - 1) as nat);
        (bumped_score(prev.0), bumped_highscore(prev.0, prev.1))
    }
}

/// Starting from score zero and a stored highscore `h`, `k` consecutive
/// eat events with no game over leave the score at `k` and the highscore
/// at the maximum of `h` and `k`.
pub proof fn lemma_score_after_eats(h: u32, k: nat)
    requires
        k <= u32::MAX,
    ensures
        eats_from(0, h, k).0 == k,
        eats_from(0, h, k).1 == (if k > h { k as u32 } else { h }),
    decreases k,
{
    if k > 0 {
        lemma_score_after_eats(h, (k - 1) as nat);
    }
}

} // verus!
