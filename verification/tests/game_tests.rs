use snake::apple::{apple_char, Apple};
use snake::direction::Direction;
use snake::game::{
    game_over_action, intro_action, FrameOutcome, Game, Input, Key, MoveOutcome, ScreenAction,
    FRAMES_PER_MOVE, INITIAL_LENGTH, SPAWN_MARGIN,
};
use snake::highscore::{format_u32, parse_u32, read_highscore_value};
use snake::player::Snake;
use snake::point::Point;

fn pt(x: i16, y: i16) -> Point {
    Point { x, y }
}

fn snake_right_at_10_10() -> Snake {
    Snake {
        head: pt(10, 10),
        body: vec![pt(9, 10), pt(8, 10), pt(7, 10)],
        direction: Direction::Right,
    }
}

fn game_with(snake: Snake, apple: Point, highscore: u32) -> Game {
    Game {
        snake,
        apple: Apple { position: apple },
        score: 0,
        highscore,
        width: 40,
        height: 30,
        move_counter: 0,
    }
}

#[test]
fn reversal_is_rejected_for_every_direction() {
    let pairs = [
        (Direction::Up, Direction::Down),
        (Direction::Down, Direction::Up),
        (Direction::Left, Direction::Right),
        (Direction::Right, Direction::Left),
    ];
    for (current, reverse) in pairs {
        let mut s = snake_right_at_10_10();
        s.direction = current;
        s.try_turn(reverse);
        assert_eq!(s.direction, current);
    }
}

#[test]
fn non_reversal_turn_is_applied() {
    let mut s = snake_right_at_10_10();
    s.try_turn(Direction::Up);
    assert_eq!(s.direction, Direction::Up);
}

#[test]
fn next_position_is_pure() {
    let s = snake_right_at_10_10();
    let first = s.next_position();
    let second = s.next_position();
    assert_eq!(first, second);
    assert_eq!(s.head, pt(10, 10));
    assert_eq!(s.body, vec![pt(9, 10), pt(8, 10), pt(7, 10)]);
}

#[test]
fn next_position_offsets() {
    let mut s = snake_right_at_10_10();
    s.direction = Direction::Right;
    assert_eq!(s.next_position(), pt(11, 10));
    s.direction = Direction::Left;
    assert_eq!(s.next_position(), pt(9, 10));
    s.direction = Direction::Up;
    assert_eq!(s.next_position(), pt(10, 9));
    s.direction = Direction::Down;
    assert_eq!(s.next_position(), pt(10, 11));
}

#[test]
fn move_forward_preserves_length_and_commits_next_position() {
    let mut s = snake_right_at_10_10();
    let next = s.next_position();
    s.move_forward();
    assert_eq!(s.head, next);
    assert_eq!(s.body.len(), 3);
    assert_eq!(s.body, vec![pt(10, 10), pt(9, 10), pt(8, 10)]);
}

#[test]
fn move_forward_and_eat_grows_by_one_and_commits_next_position() {
    let mut s = snake_right_at_10_10();
    let next = s.next_position();
    s.move_forward_and_eat();
    assert_eq!(s.head, next);
    assert_eq!(s.body.len(), 4);
    assert_eq!(s.body, vec![pt(10, 10), pt(9, 10), pt(8, 10), pt(7, 10)]);
}

#[test]
fn snake_new_stacks_body_and_maps_seed_to_direction() {
    let s = Snake::new(pt(12, 12), 3, 0);
    assert_eq!(s.head, pt(12, 12));
    assert_eq!(s.body, vec![pt(12, 12), pt(12, 12), pt(12, 12)]);
    assert_eq!(s.direction, Direction::Up);
    assert_eq!(Snake::new(pt(1, 1), 0, 1).direction, Direction::Down);
    assert_eq!(Snake::new(pt(1, 1), 0, 2).direction, Direction::Left);
    assert_eq!(Snake::new(pt(1, 1), 0, 3).direction, Direction::Right);
    assert_eq!(Snake::new(pt(1, 1), 0, 7).direction, Direction::Right);
}

#[test]
fn self_collision_triggers_game_over_without_committing() {
    let mut s = snake_right_at_10_10();
    // A body shaped so that the cell ahead of the head is occupied.
    s.body = vec![pt(11, 10), pt(12, 10), pt(12, 9)];
    let mut g = game_with(s, pt(20, 20), 0);
    let outcome = g.move_tick();
    assert_eq!(outcome, MoveOutcome::GameOver);
    assert_eq!(g.snake.head, pt(10, 10));
    assert_eq!(g.snake.body, vec![pt(11, 10), pt(12, 10), pt(12, 9)]);
    assert_eq!(g.score, 0);
}

#[test]
fn wall_contact_triggers_game_over() {
    // Heading right one cell short of the right wall: next x + 1 == width.
    let mut s = snake_right_at_10_10();
    s.head = pt(38, 10);
    s.body = vec![pt(37, 10), pt(36, 10), pt(35, 10)];
    let mut g = game_with(s, pt(20, 20), 0);
    assert_eq!(g.move_tick(), MoveOutcome::GameOver);

    // Heading up one cell below the score line: next y == 1.
    let mut s = snake_right_at_10_10();
    s.head = pt(10, 2);
    s.body = vec![pt(10, 3), pt(10, 4), pt(10, 5)];
    s.direction = Direction::Up;
    let mut g = game_with(s, pt(20, 20), 0);
    assert_eq!(g.move_tick(), MoveOutcome::GameOver);

    // Heading left against the leftmost column: next x == 0.
    let mut s = snake_right_at_10_10();
    s.head = pt(1, 10);
    s.body = vec![pt(2, 10), pt(3, 10), pt(4, 10)];
    s.direction = Direction::Left;
    let mut g = game_with(s, pt(20, 20), 0);
    assert_eq!(g.move_tick(), MoveOutcome::GameOver);

    // Heading down one cell above the bottom edge: next y + 1 == height.
    let mut s = snake_right_at_10_10();
    s.head = pt(10, 28);
    s.body = vec![pt(10, 27), pt(10, 26), pt(10, 25)];
    s.direction = Direction::Down;
    let mut g = game_with(s, pt(20, 20), 0);
    assert_eq!(g.move_tick(), MoveOutcome::GameOver);
}

#[test]
fn ordinary_move_keeps_score_and_apple() {
    let mut g = game_with(snake_right_at_10_10(), pt(20, 20), 5);
    let outcome = g.move_tick();
    assert_eq!(outcome, MoveOutcome::Moved);
    assert_eq!(g.snake.head, pt(11, 10));
    assert_eq!(g.snake.body.len(), 3);
    assert_eq!(g.score, 0);
    assert_eq!(g.highscore, 5);
    assert_eq!(g.apple.position, pt(20, 20));
}

#[test]
fn eat_scenario_grows_scores_and_relocates_apple() {
    // Snake of length 3 at (10, 10) moving right, apple at (11, 10), on a
    // playfield whose spawn box cannot contain (11, 10).
    let mut g = Game {
        snake: snake_right_at_10_10(),
        apple: Apple { position: pt(11, 10) },
        score: 0,
        highscore: 0,
        width: 13,
        height: 30,
        move_counter: 0,
    };
    let outcome = g.move_tick();
    assert_eq!(outcome, MoveOutcome::Ate { persist: Some(1) });
    assert_eq!(g.snake.head, pt(11, 10));
    assert_eq!(g.snake.body.len(), 4);
    assert_eq!(g.score, 1);
    assert_eq!(g.highscore, 1);
    // The fresh apple was drawn from [5, 8) x [5, 25), so it moved away.
    assert_ne!(g.apple.position, pt(11, 10));
    let p = g.apple.position;
    assert!((5..8).contains(&p.x) && (5..25).contains(&p.y));
}

#[test]
fn eating_below_the_highscore_does_not_persist() {
    let mut g = game_with(snake_right_at_10_10(), pt(11, 10), 5);
    let outcome = g.move_tick();
    assert_eq!(outcome, MoveOutcome::Ate { persist: None });
    assert_eq!(g.score, 1);
    assert_eq!(g.highscore, 5);
}

#[test]
fn consecutive_eats_count_the_score_and_track_the_highscore() {
    let runs = [(0u32, 3u32), (2, 3), (5, 3), (3, 3)];
    for (initial_highscore, k) in runs {
        let mut g = game_with(snake_right_at_10_10(), pt(11, 10), initial_highscore);
        for _ in 0..k {
            // Put the apple straight ahead again so the next move eats too.
            let ahead = g.snake.next_position();
            g.apple.position = ahead;
            let outcome = g.move_tick();
            assert!(matches!(outcome, MoveOutcome::Ate { .. }));
        }
        assert_eq!(g.score, k);
        assert_eq!(g.highscore, initial_highscore.max(k));
    }
}

#[test]
fn same_tick_reversal_keeps_direction() {
    // Moving right, the left arrow is an attempted 180-degree turn.
    let mut g = game_with(snake_right_at_10_10(), pt(20, 20), 0);
    let quit = g.handle_input(Input::Pressed(Key::Left));
    assert!(!quit);
    assert_eq!(g.snake.direction, Direction::Right);
}

#[test]
fn vertical_arrows_are_crossed() {
    let mut s = snake_right_at_10_10();
    s.direction = Direction::Left;
    let mut g = game_with(s, pt(20, 20), 0);
    let quit = g.handle_input(Input::Pressed(Key::Up));
    assert!(!quit);
    assert_eq!(g.snake.direction, Direction::Down);
    let quit = g.handle_input(Input::Pressed(Key::Right));
    assert!(!quit);
    assert_eq!(g.snake.direction, Direction::Right);
    let quit = g.handle_input(Input::Pressed(Key::Down));
    assert!(!quit);
    assert_eq!(g.snake.direction, Direction::Up);
}

#[test]
fn escape_and_poll_failure_quit() {
    let mut g = game_with(snake_right_at_10_10(), pt(20, 20), 0);
    assert!(g.handle_input(Input::Pressed(Key::Escape)));
    assert!(g.handle_input(Input::Failed));
    assert!(!g.handle_input(Input::Nothing));
    assert!(!g.handle_input(Input::Pressed(Key::Space)));
    assert_eq!(g.frame_tick(Input::Pressed(Key::Escape)), FrameOutcome::Quit);
    assert_eq!(g.frame_tick(Input::Failed), FrameOutcome::Quit);
}

#[test]
fn moves_happen_every_fourth_frame() {
    let mut g = game_with(snake_right_at_10_10(), pt(20, 20), 0);
    let mut moves = 0u32;
    let mut frames = 0u32;
    // 4 idle frames advance the counter, the 5th evaluates a move.
    for _ in 0..10 {
        loop {
            frames += 1;
            match g.frame_tick(Input::Nothing) {
                FrameOutcome::Idle => {},
                FrameOutcome::Move(outcome) => {
                    assert!(matches!(outcome, MoveOutcome::Moved | MoveOutcome::GameOver));
                    moves += 1;
                    break;
                },
                FrameOutcome::Quit => unreachable!(),
            }
        }
    }
    assert_eq!(moves, 10);
    assert_eq!(frames, 10 * (u32::from(FRAMES_PER_MOVE) + 1));
}

#[test]
fn frame_input_takes_effect_before_the_move() {
    let mut g = game_with(snake_right_at_10_10(), pt(20, 20), 0);
    g.move_counter = FRAMES_PER_MOVE;
    let outcome = g.frame_tick(Input::Pressed(Key::Down));
    assert_eq!(outcome, FrameOutcome::Move(MoveOutcome::Moved));
    // The down arrow selects the heading labeled Up: the head moved to a
    // smaller row.
    assert_eq!(g.snake.direction, Direction::Up);
    assert_eq!(g.snake.head, pt(10, 9));
    assert_eq!(g.move_counter, 0);
}

#[test]
fn new_game_starts_inside_the_spawn_box() {
    let g = Game::new(40, 30, 7, 2);
    assert_eq!(g.score, 0);
    assert_eq!(g.highscore, 7);
    assert_eq!(g.width, 40);
    assert_eq!(g.height, 30);
    assert_eq!(g.move_counter, 0);
    assert_eq!(g.snake.direction, Direction::Left);
    assert_eq!(g.snake.body.len(), INITIAL_LENGTH as usize);
    let margin = SPAWN_MARGIN;
    let h = g.snake.head;
    assert!(margin <= h.x && h.x < 40 - margin && margin <= h.y && h.y < 30 - margin);
    let a = g.apple.position;
    assert!(margin <= a.x && a.x < 40 - margin && margin <= a.y && a.y < 30 - margin);
}

#[test]
fn random_points_respect_their_bounds() {
    // A degenerate box pins the draw completely.
    assert_eq!(Point::random(5, 6, 7, 8), pt(5, 7));
    for _ in 0..100 {
        let p = Point::random(-3, 4, 10, 12);
        assert!(-3 <= p.x && p.x < 4 && 10 <= p.y && p.y < 12);
    }
}

#[test]
fn screen_transitions() {
    assert_eq!(intro_action(Input::Pressed(Key::Space)), ScreenAction::Continue);
    assert_eq!(intro_action(Input::Pressed(Key::Escape)), ScreenAction::Abort);
    assert_eq!(intro_action(Input::Failed), ScreenAction::Abort);
    assert_eq!(intro_action(Input::Pressed(Key::Other)), ScreenAction::Stay);
    assert_eq!(intro_action(Input::Nothing), ScreenAction::Stay);
    assert_eq!(game_over_action(Input::Pressed(Key::Escape)), ScreenAction::Abort);
    assert_eq!(game_over_action(Input::Failed), ScreenAction::Abort);
    assert_eq!(game_over_action(Input::Pressed(Key::Space)), ScreenAction::Stay);
}

#[test]
fn direction_reverse_mapping() {
    assert_eq!(Direction::Up.reverse(), Direction::Down);
    assert_eq!(Direction::Down.reverse(), Direction::Up);
    assert_eq!(Direction::Left.reverse(), Direction::Right);
    assert_eq!(Direction::Right.reverse(), Direction::Left);
}

#[test]
fn apple_holds_its_position_and_glyph() {
    let a = Apple::new(pt(3, 4));
    assert_eq!(a.position, pt(3, 4));
    assert_eq!(apple_char(), '*');
}

#[test]
fn highscore_round_trip() {
    for n in [0u32, 7, 9, 10, 42, 1000, 4294967294, u32::MAX] {
        let bytes = format_u32(n);
        assert_eq!(parse_u32(&bytes), Some(n));
        assert_eq!(read_highscore_value(&bytes), n);
    }
}

#[test]
fn format_u32_writes_canonical_decimal() {
    assert_eq!(format_u32(0), b"0".to_vec());
    assert_eq!(format_u32(7), b"7".to_vec());
    assert_eq!(format_u32(105), b"105".to_vec());
    assert_eq!(format_u32(u32::MAX), b"4294967295".to_vec());
}

#[test]
fn parse_u32_accepts_exactly_in_range_digit_strings() {
    assert_eq!(parse_u32(b"0"), Some(0));
    assert_eq!(parse_u32(b"123"), Some(123));
    assert_eq!(parse_u32(b"007"), Some(7));
    assert_eq!(parse_u32(b"4294967295"), Some(u32::MAX));
    assert_eq!(parse_u32(b""), None);
    assert_eq!(parse_u32(b"12a"), None);
    assert_eq!(parse_u32(b"-3"), None);
    assert_eq!(parse_u32(b" 12"), None);
    assert_eq!(parse_u32(b"4294967296"), None);
    assert_eq!(parse_u32(b"99999999999"), None);
}

#[test]
fn unreadable_highscore_defaults_to_zero() {
    assert_eq!(read_highscore_value(b""), 0);
    assert_eq!(read_highscore_value(b"not a number"), 0);
    assert_eq!(read_highscore_value(b"4294967296"), 0);
    assert_eq!(read_highscore_value(b"12\n"), 0);
}
