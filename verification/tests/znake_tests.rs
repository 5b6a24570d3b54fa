use znake::digits::to_decimal;
use znake::engine::Game;
use znake::engine::GameState;
use znake::engine::timeout_parts;
use znake::game::Direction;
use znake::game::Food;
use znake::game::Znake;
use znake::render::clear_screen;
use znake::render::draw_border;
use znake::render::draw_game_over_screen;
use znake::render::move_cursor;
use znake::render::render_frame;

#[test]
fn test_escape_sequence_len() {
    let escape = b"\x1b[2J\x1b[H";
    assert_eq!(escape.len(), 7)
}

#[test]
fn clear_screen_bytes_match_escape_sequence() {
    assert_eq!(clear_screen(), b"\x1b[2J\x1b[H".to_vec());
}

#[test]
fn move_cursor_formats_row_then_column() {
    assert_eq!(move_cursor(20, 10), b"\x1b[10;20H".to_vec());
    assert_eq!(move_cursor(1, 1), b"\x1b[1;1H".to_vec());
    assert_eq!(move_cursor(3, 147), b"\x1b[147;3H".to_vec());
}

#[test]
fn to_decimal_has_no_leading_zeros() {
    assert_eq!(to_decimal(0), b"0".to_vec());
    assert_eq!(to_decimal(7), b"7".to_vec());
    assert_eq!(to_decimal(10), b"10".to_vec());
    assert_eq!(to_decimal(12345), b"12345".to_vec());
    assert_eq!(to_decimal(usize::MAX), usize::MAX.to_string().into_bytes());
}

#[test]
fn border_is_the_framed_rectangle() {
    let mut expected: Vec<u8> = Vec::new();
    expected.push(b'+');
    for _ in 0..40 {
        expected.push(b'-');
    }
    expected.extend_from_slice(b"+\r\n");
    for _ in 0..20 {
        expected.push(b'|');
        for _ in 0..40 {
            expected.push(b' ');
        }
        expected.extend_from_slice(b"|\r\n");
    }
    expected.push(b'+');
    for _ in 0..40 {
        expected.push(b'-');
    }
    expected.extend_from_slice(b"+\r\n");
    assert_eq!(draw_border(), expected);
}

#[test]
fn new_znake_is_three_segments_heading_right() {
    let z = Znake::new();
    assert_eq!(z.segments, vec![(20, 10), (19, 10), (18, 10)]);
    assert_eq!(z.direction, Direction::Right);
}

#[test]
fn plain_move_shifts_the_body_right() {
    // Heading right with no food ahead: the head advances one cell
    // and the tail cell is gone.
    let mut z = Znake::new();
    z.move_znake();
    assert_eq!(z.segments, vec![(21, 10), (20, 10), (19, 10)]);
}

#[test]
fn opposite_direction_is_rejected_others_accepted() {
    let mut z = Znake {
        segments: vec![(20, 10), (20, 11), (20, 12)],
        direction: Direction::Up,
    };
    z.change_direction(b's');
    assert_eq!(z.direction, Direction::Up);
    z.change_direction(b'a');
    assert_eq!(z.direction, Direction::Left);
}

#[test]
fn direction_keys_are_case_insensitive_and_others_ignored() {
    let mut z = Znake::new();
    z.change_direction(b'W');
    assert_eq!(z.direction, Direction::Up);
    z.change_direction(b'x');
    assert_eq!(z.direction, Direction::Up);
    z.change_direction(b'd');
    assert_eq!(z.direction, Direction::Right);
    z.change_direction(b'S');
    assert_eq!(z.direction, Direction::Down);
    z.change_direction(b'A');
    assert_eq!(z.direction, Direction::Left);
    z.change_direction(b'\n');
    assert_eq!(z.direction, Direction::Left);
}

#[test]
fn collision_on_each_frame_side() {
    for head in [(1, 10), (41, 10), (20, 1), (20, 21)] {
        let z = Znake {
            segments: vec![head, (25, 15), (26, 15)],
            direction: Direction::Left,
        };
        assert!(z.check_collision());
    }
}

#[test]
fn collision_on_own_body_but_not_in_open_space() {
    let z = Znake {
        segments: vec![(20, 10), (20, 11), (21, 11), (21, 10), (20, 10)],
        direction: Direction::Up,
    };
    assert!(z.check_collision());
    let free = Znake::new();
    assert!(!free.check_collision());
}

#[test]
fn score_is_segment_count_minus_three_floored() {
    assert_eq!(Znake::new().score(), 0);
    let long = Znake {
        segments: vec![(10, 10), (11, 10), (12, 10), (13, 10), (14, 10), (15, 10)],
        direction: Direction::Left,
    };
    assert_eq!(long.score(), 3);
    let short = Znake {
        segments: vec![(10, 10)],
        direction: Direction::Left,
    };
    assert_eq!(short.score(), 0);
}

#[test]
fn food_is_placed_from_the_seed_inside_the_frame() {
    let f = Food::new(0);
    assert_eq!((f.x, f.y), (2, 2));
    let f = Food::new(123);
    // 123 % 38 + 2 = 11, (123 / 40) % 18 + 2 = 5
    assert_eq!((f.x, f.y), (11, 5));
    for seed in [0, 1, 39, 40, 777, usize::MAX] {
        let f = Food::new(seed);
        assert!(2 <= f.x && f.x < 40);
        assert!(2 <= f.y && f.y < 20);
    }
}

#[test]
fn eating_grows_by_one_and_replaces_the_food() {
    let mut g = Game::new(0);
    g.food = Food { x: 21, y: 10 };
    g.tick(123);
    assert_eq!(
        g.znake.segments,
        vec![(21, 10), (20, 10), (19, 10), (18, 10)]
    );
    assert_eq!((g.food.x, g.food.y), (11, 5));
    assert_eq!(g.state, GameState::Playing);
    assert_eq!(g.znake.score(), 1);
}

#[test]
fn plain_tick_keeps_count_and_drops_tail() {
    let mut g = Game::new(0);
    let old_tail = *g.znake.segments.last().unwrap();
    g.tick(0);
    assert_eq!(g.znake.segments.len(), 3);
    assert!(!g.znake.segments.contains(&old_tail));
    assert_eq!(g.state, GameState::Playing);
}

#[test]
fn hitting_the_frame_ends_the_round_with_the_score() {
    let mut g = Game::new(0);
    g.znake = Znake {
        segments: vec![(2, 10), (3, 10), (4, 10)],
        direction: Direction::Left,
    };
    g.tick(0);
    assert_eq!(g.znake.segments[0], (1, 10));
    assert!(g.znake.check_collision());
    assert_eq!(g.state, GameState::GameOver { score: 0 });
}

#[test]
fn game_over_keys_only_enter_restarts() {
    let mut g = Game::new(0);
    g.state = GameState::GameOver { score: 4 };
    assert!(!g.handle_key(b'w'));
    assert!(!g.handle_key(b'x'));
    assert!(g.handle_key(b'\n'));
    assert!(g.handle_key(b'\r'));
    assert_eq!(g.state, GameState::GameOver { score: 4 });
}

#[test]
fn playing_keys_turn_the_snake_and_never_restart() {
    let mut g = Game::new(0);
    assert!(!g.handle_key(b'w'));
    assert_eq!(g.znake.direction, Direction::Up);
    assert!(!g.handle_key(b'\n'));
    assert_eq!(g.znake.direction, Direction::Up);
}

#[test]
fn snake_draw_uses_at_for_head_and_o_for_body() {
    let z = Znake {
        segments: vec![(21, 10), (20, 10)],
        direction: Direction::Right,
    };
    let mut expected = move_cursor(21, 10);
    expected.push(b'@');
    expected.extend(move_cursor(20, 10));
    expected.push(b'o');
    assert_eq!(z.draw(), expected);
}

#[test]
fn food_draw_is_a_cursor_move_and_a_star() {
    let f = Food { x: 11, y: 5 };
    let mut expected = move_cursor(11, 5);
    expected.push(b'*');
    assert_eq!(f.draw(), expected);
}

#[test]
fn game_over_screen_is_centred_with_score_and_hints() {
    let mut expected = move_cursor(17, 7);
    expected.extend_from_slice(b"GAME OVER!");
    // "Score: 5" is 8 bytes: (40 - 8) / 2 + 2 = 18
    expected.extend(move_cursor(18, 10));
    expected.extend_from_slice(b"Score: 5");
    expected.extend(move_cursor(12, 13));
    expected.extend_from_slice(b"Press ENTER to retry");
    expected.extend(move_cursor(12, 14));
    expected.extend_from_slice(b"Press ctrl+c to exit");
    assert_eq!(draw_game_over_screen(5), expected);
}

#[test]
fn game_over_screen_centres_longer_scores() {
    // "Score: 123" is 10 bytes: (40 - 10) / 2 + 2 = 17
    let screen = draw_game_over_screen(123);
    let mut tail = move_cursor(17, 10);
    tail.extend_from_slice(b"Score: 123");
    let screen_str: Vec<u8> = screen;
    assert!(screen_str
        .windows(tail.len())
        .any(|w| w == tail.as_slice()));
}

#[test]
fn playing_render_is_clear_border_snake_food() {
    let mut g = Game::new(0);
    let expected = {
        let mut buf = clear_screen();
        buf.extend(draw_border());
        buf.extend(g.znake.draw());
        buf.extend(g.food.draw());
        buf
    };
    assert_eq!(render_frame(&g.znake, &g.food), expected);
    let drawn = g.render().expect("playing state always renders");
    assert_eq!(drawn, expected);
    assert_eq!(g.state, GameState::Playing);
}

#[test]
fn game_over_screen_is_rendered_exactly_once() {
    let mut g = Game::new(0);
    g.state = GameState::GameOver { score: 2 };
    let first = g.render();
    assert_eq!(first, Some(draw_game_over_screen(2)));
    assert_eq!(g.render(), None);
    assert_eq!(g.render(), None);
}

#[test]
fn timeout_splits_into_seconds_and_microseconds() {
    assert_eq!(timeout_parts(50), (0, 50000));
    assert_eq!(timeout_parts(1250), (1, 250000));
    assert_eq!(timeout_parts(1000), (1, 0));
}
