use tetris::board::{Board, Field, HEIGHT, WIDTH};
use tetris::srs::Direction;
use tetris::tetromino::{Point, Rotation, TetrominoType};

fn empty_field() -> Field {
    [[None; WIDTH]; HEIGHT]
}

fn sorted_bag() -> Vec<TetrominoType> {
    vec![
        TetrominoType::I,
        TetrominoType::J,
        TetrominoType::L,
        TetrominoType::O,
        TetrominoType::S,
        TetrominoType::T,
        TetrominoType::Z,
    ]
}

fn tag_of(c: char) -> Option<TetrominoType> {
    match c {
        '.' => None,
        'I' => Some(TetrominoType::I),
        'J' => Some(TetrominoType::J),
        'L' => Some(TetrominoType::L),
        'O' => Some(TetrominoType::O),
        'S' => Some(TetrominoType::S),
        'T' => Some(TetrominoType::T),
        'Z' => Some(TetrominoType::Z),
        '~' => Some(TetrominoType::Shadow),
        _ => panic!("no such cell"),
    }
}

fn char_of(cell: Option<TetrominoType>) -> char {
    match cell {
        None => '.',
        Some(TetrominoType::I) => 'I',
        Some(TetrominoType::J) => 'J',
        Some(TetrominoType::L) => 'L',
        Some(TetrominoType::O) => 'O',
        Some(TetrominoType::S) => 'S',
        Some(TetrominoType::T) => 'T',
        Some(TetrominoType::Z) => 'Z',
        Some(TetrominoType::Shadow) => '~',
    }
}

/// A field whose lowest rows are the given ones, the last of them the floor.
fn field_with_bottom(rows: &[&str]) -> Field {
    let mut field = empty_field();
    let first = HEIGHT - rows.len();
    for (i, row) in rows.iter().enumerate() {
        assert_eq!(row.len(), WIDTH);
        for (x, c) in row.chars().enumerate() {
            field[first + i][x] = tag_of(c);
        }
    }
    field
}

fn rows(field: &Field, from: usize, to: usize) -> Vec<String> {
    (from..to).map(|y| field[y].iter().map(|c| char_of(*c)).collect()).collect()
}

fn is_empty_between(field: &Field, from: usize, to: usize) -> bool {
    (from..to).all(|y| field[y].iter().all(|c| c.is_none()))
}

fn times(n: usize, board: &mut Board, step: fn(&mut Board)) {
    for _ in 0..n {
        step(board);
    }
}

#[test]
fn first_piece_enters_at_the_spawn_origin() {
    let board = Board::with_field(empty_field(), sorted_bag());
    let field = board.field();
    assert_eq!(rows(&field, 0, 2), vec!["...ZZ.....", "....ZZ...."]);
    assert!(is_empty_between(&field, 2, 20));
    assert_eq!(rows(&field, 20, 22), vec!["...~~.....", "....~~...."]);
    assert!(!board.is_topped_out());
    assert_eq!(board.score(), 0);
    assert_eq!(board.level(), 0);
    assert_eq!(board.cleared(), 0);
    assert!(board.hold().is_none());
    let next = board.peek_next();
    assert_eq!(next.tetromino_type(), TetrominoType::T);
    assert_eq!(next.origin(), Point::new(3, 0));
    assert_eq!(next.rot(), Rotation::Spawn);
}

#[test]
fn peek_next_does_not_draw() {
    let board = Board::with_field(empty_field(), sorted_bag());
    let before = board.field();
    let first = board.peek_next();
    let second = board.peek_next();
    assert_eq!(first.tetromino_type(), second.tetromino_type());
    assert_eq!(board.field(), before);
}

#[test]
fn with_field_takes_preview_markers_off() {
    let field = field_with_bottom(&["~~~~~~~~~~", "JJJJ..~~.."]);
    let board = Board::with_field(field, sorted_bag());
    let shown = board.field();
    assert!(is_empty_between(&shown, 2, 19));
    assert_eq!(rows(&shown, 19, 22), vec!["..........", "...~~.....", "JJJJ~~...."]);
}

#[test]
fn left_and_right_move_piece_and_shadow_one_column() {
    let mut board = Board::with_field(empty_field(), sorted_bag());
    board.left();
    let field = board.field();
    assert_eq!(rows(&field, 0, 2), vec!["..ZZ......", "...ZZ....."]);
    assert_eq!(rows(&field, 20, 22), vec!["..~~......", "...~~....."]);
    board.right();
    board.right();
    let field = board.field();
    assert_eq!(rows(&field, 0, 2), vec!["....ZZ....", ".....ZZ..."]);
    assert!(is_empty_between(&field, 2, 20));
    assert_eq!(rows(&field, 20, 22), vec!["....~~....", ".....~~..."]);
    assert_eq!(board.score(), 0);
}

#[test]
fn walls_stop_the_piece() {
    let mut board = Board::with_field(empty_field(), sorted_bag());
    times(3, &mut board, Board::left);
    let at_wall = board.field();
    assert_eq!(rows(&at_wall, 0, 2), vec!["ZZ........", ".ZZ......."]);
    board.left();
    assert_eq!(board.field(), at_wall);
    times(4, &mut board, Board::right);
    times(3, &mut board, Board::right);
    let at_wall = board.field();
    assert_eq!(rows(&at_wall, 0, 2), vec![".......ZZ.", "........ZZ"]);
    board.right();
    assert_eq!(board.field(), at_wall);
}

#[test]
fn down_moves_one_row_for_no_points_and_stops_at_the_floor() {
    let mut board = Board::with_field(empty_field(), sorted_bag());
    board.down();
    let field = board.field();
    assert_eq!(rows(&field, 0, 3), vec!["..........", "...ZZ.....", "....ZZ...."]);
    assert_eq!(rows(&field, 20, 22), vec!["...~~.....", "....~~...."]);
    assert_eq!(board.score(), 0);
    times(19, &mut board, Board::down);
    let at_floor = board.field();
    assert!(is_empty_between(&at_floor, 0, 20));
    assert_eq!(rows(&at_floor, 20, 22), vec!["...ZZ.....", "....ZZ...."]);
    board.down();
    assert_eq!(board.field(), at_floor);
    assert_eq!(board.score(), 0);
    // The piece is still the active one: it can move along the floor.
    board.left();
    assert_eq!(rows(&board.field(), 20, 22), vec!["..ZZ......", "...ZZ....."]);
}

#[test]
fn settled_cells_stop_the_piece() {
    let field = field_with_bottom(&["..J.......", "..J......."]);
    let mut board = Board::with_field(field, sorted_bag());
    times(20, &mut board, Board::down);
    assert_eq!(rows(&board.field(), 20, 22), vec!["..JZZ.....", "..J.ZZ...."]);
    let before = board.field();
    board.left();
    assert_eq!(board.field(), before);
}

#[test]
fn tick_takes_the_piece_down_one_row_for_one_point() {
    let mut board = Board::with_field(empty_field(), sorted_bag());
    board.tick_with(sorted_bag());
    let field = board.field();
    assert_eq!(rows(&field, 0, 3), vec!["..........", "...ZZ.....", "....ZZ...."]);
    assert_eq!(board.score(), 1);
    times(19, &mut board, |b| b.tick_with(sorted_bag()));
    assert_eq!(board.score(), 20);
    assert_eq!(rows(&board.field(), 20, 22), vec!["...ZZ.....", "....ZZ...."]);
    assert_eq!(board.peek_next().tetromino_type(), TetrominoType::T);
}

#[test]
fn tick_at_rest_locks_the_piece_and_spawns_the_next() {
    let mut board = Board::with_field(empty_field(), sorted_bag());
    times(20, &mut board, Board::down);
    assert_eq!(board.peek_next().tetromino_type(), TetrominoType::T);
    board.tick_with(sorted_bag());
    let field = board.field();
    assert_eq!(rows(&field, 0, 2), vec!["....T.....", "...TTT...."]);
    assert!(is_empty_between(&field, 2, 18));
    assert_eq!(
        rows(&field, 18, 22),
        vec!["....~.....", "...~~~....", "...ZZ.....", "....ZZ...."]
    );
    assert_eq!(board.score(), 0);
    assert_eq!(board.cleared(), 0);
    assert!(!board.is_topped_out());
    assert_eq!(board.peek_next().tetromino_type(), TetrominoType::S);
}

#[test]
fn hard_drop_scores_two_points_a_row_and_spawns_the_next_piece() {
    let mut board = Board::with_field(empty_field(), sorted_bag());
    board.drop_tetromino_with(sorted_bag());
    assert_eq!(board.score(), 40);
    let field = board.field();
    assert_eq!(rows(&field, 0, 2), vec!["....T.....", "...TTT...."]);
    assert_eq!(
        rows(&field, 18, 22),
        vec!["....~.....", "...~~~....", "...ZZ.....", "....ZZ...."]
    );
    assert_eq!(board.peek_next().tetromino_type(), TetrominoType::S);
}

#[test]
fn hard_drop_from_half_way_scores_the_rows_that_are_left() {
    let mut board = Board::with_field(empty_field(), sorted_bag());
    times(5, &mut board, Board::down);
    board.drop_tetromino_with(sorted_bag());
    assert_eq!(board.score(), 30);
}

#[test]
fn rotate_turns_the_piece_and_drops_the_shadow_anew() {
    let mut board = Board::with_field(empty_field(), sorted_bag());
    board.rotate(Direction::Clockwise);
    let field = board.field();
    assert_eq!(rows(&field, 0, 3), vec![".....Z....", "....ZZ....", "....Z....."]);
    assert!(is_empty_between(&field, 3, 19));
    assert_eq!(rows(&field, 19, 22), vec![".....~....", "....~~....", "....~....."]);
    board.rotate(Direction::CounterClockwise);
    let field = board.field();
    assert_eq!(rows(&field, 0, 2), vec!["...ZZ.....", "....ZZ...."]);
    assert_eq!(rows(&field, 20, 22), vec!["...~~.....", "....~~...."]);
}

#[test]
fn failed_rotation_leaves_the_board_as_it_was() {
    let mut field = empty_field();
    for x in 0..WIDTH {
        field[0][x] = Some(TetrominoType::J);
        field[2][x] = Some(TetrominoType::J);
        field[3][x] = Some(TetrominoType::J);
        if !(3..7).contains(&x) {
            field[1][x] = Some(TetrominoType::J);
        }
    }
    let mut board = Board::with_field(field, vec![TetrominoType::O, TetrominoType::I]);
    assert!(!board.is_topped_out());
    let before = board.field();
    assert_eq!(rows(&before, 0, 4), vec!["JJJJJJJJJJ", "JJJIIIIJJJ", "JJJJJJJJJJ", "JJJJJJJJJJ"]);
    board.rotate(Direction::Clockwise);
    assert_eq!(board.field(), before);
    board.rotate(Direction::CounterClockwise);
    assert_eq!(board.field(), before);
    assert_eq!(board.score(), 0);
    assert_eq!(board.peek_next().tetromino_type(), TetrominoType::O);
}

#[test]
fn shadow_rests_on_what_lies_below_the_piece() {
    let mut field = empty_field();
    field[15][4] = Some(TetrominoType::J);
    let mut board = Board::with_field(field, sorted_bag());
    let shown = board.field();
    assert_eq!(rows(&shown, 13, 16), vec!["...~~.....", "....~~....", "....J....."]);
    assert!(is_empty_between(&shown, 16, 22));
    board.left();
    let shown = board.field();
    assert_eq!(rows(&shown, 13, 16), vec!["..~~......", "...~~.....", "....J....."]);
    board.left();
    let shown = board.field();
    assert_eq!(rows(&shown, 13, 16), vec!["..........", "..........", "....J....."]);
    assert_eq!(rows(&shown, 20, 22), vec![".~~.......", "..~~......"]);
}

#[test]
fn shadow_stays_where_it_is_while_the_piece_goes_down() {
    let mut board = Board::with_field(empty_field(), sorted_bag());
    for step in 1..=20 {
        board.down();
        let field = board.field();
        let mut expected = empty_field();
        for (x, y) in [(3, 20), (4, 20), (4, 21), (5, 21)] {
            expected[y][x] = Some(TetrominoType::Shadow);
        }
        for (x, y) in [(3, step), (4, step), (4, step + 1), (5, step + 1)] {
            expected[y][x] = Some(TetrominoType::Z);
        }
        assert_eq!(field, expected);
    }
}

#[test]
fn completed_row_is_removed_and_rows_above_move_down() {
    let field = field_with_bottom(&["S.........", "JJJJJJ...."]);
    let bag = vec![TetrominoType::O, TetrominoType::T, TetrominoType::I];
    let mut board = Board::with_field(field, bag);
    times(3, &mut board, Board::right);
    assert_eq!(rows(&board.field(), 20, 22), vec!["S.........", "JJJJJJ~~~~"]);
    board.drop_tetromino_with(sorted_bag());
    assert_eq!(board.cleared(), 1);
    assert_eq!(board.level(), 0);
    assert_eq!(board.score(), 2 * 20 + 40);
    let shown = board.field();
    assert_eq!(rows(&shown, 0, 2), vec!["....T.....", "...TTT...."]);
    assert!(is_empty_between(&shown, 2, 20));
    assert_eq!(rows(&shown, 20, 22), vec!["....~.....", "S..~~~...."]);
    assert_eq!(board.peek_next().tetromino_type(), TetrominoType::O);
}

#[test]
fn completed_row_is_cleared_by_gravity_too() {
    let field = field_with_bottom(&["S.........", "JJJJJJ...."]);
    let bag = vec![TetrominoType::O, TetrominoType::T, TetrominoType::I];
    let mut board = Board::with_field(field, bag);
    times(3, &mut board, Board::right);
    times(20, &mut board, |b| b.tick_with(sorted_bag()));
    assert_eq!(board.score(), 20);
    assert_eq!(board.cleared(), 0);
    assert_eq!(rows(&board.field(), 20, 22), vec!["S.........", "JJJJJJIIII"]);
    board.tick_with(sorted_bag());
    assert_eq!(board.score(), 20 + 40);
    assert_eq!(board.cleared(), 1);
    assert_eq!(rows(&board.field(), 20, 22), vec!["....~.....", "S..~~~...."]);
}

#[test]
fn two_rows_at_once_give_a_hundred_points() {
    let field = field_with_bottom(&["ZZZZZZZZ..", "ZZZZZZZZ.."]);
    let mut board = Board::with_field(field, vec![TetrominoType::T, TetrominoType::O]);
    times(4, &mut board, Board::right);
    board.drop_tetromino_with(sorted_bag());
    assert_eq!(board.cleared(), 2);
    assert_eq!(board.score(), 2 * 20 + 100);
    let shown = board.field();
    assert!(is_empty_between(&shown, 2, 20));
    assert_eq!(rows(&shown, 20, 22), vec!["....~.....", "...~~~...."]);
}

#[test]
fn three_rows_at_once_give_three_hundred_points() {
    let field = field_with_bottom(&["ZZZZZZZZZ.", "ZZZZZZZZZ.", "ZZZZZZZZZ."]);
    let mut board = Board::with_field(field, vec![TetrominoType::T, TetrominoType::I]);
    board.rotate(Direction::Clockwise);
    times(4, &mut board, Board::right);
    board.drop_tetromino_with(sorted_bag());
    assert_eq!(board.cleared(), 3);
    assert_eq!(board.score(), 2 * 18 + 300);
    let shown = board.field();
    assert!(is_empty_between(&shown, 2, 20));
    // What was left of the bar has come down with the rows above.
    assert_eq!(rows(&shown, 20, 22), vec!["....~.....", "...~~~...I"]);
}

#[test]
fn four_rows_at_once_give_twelve_hundred_points() {
    let field =
        field_with_bottom(&["ZZZZZZZZZ.", "ZZZZZZZZZ.", "ZZZZZZZZZ.", "ZZZZZZZZZ."]);
    let bag = vec![TetrominoType::O, TetrominoType::T, TetrominoType::I];
    let mut board = Board::with_field(field, bag);
    board.rotate(Direction::Clockwise);
    times(4, &mut board, Board::right);
    assert_eq!(
        rows(&board.field(), 18, 22),
        vec!["ZZZZZZZZZ~", "ZZZZZZZZZ~", "ZZZZZZZZZ~", "ZZZZZZZZZ~"]
    );
    board.drop_tetromino_with(sorted_bag());
    assert_eq!(board.cleared(), 4);
    assert_eq!(board.level(), 0);
    assert_eq!(board.score(), 2 * 18 + 1200);
    let shown = board.field();
    assert_eq!(rows(&shown, 0, 2), vec!["....T.....", "...TTT...."]);
    assert!(is_empty_between(&shown, 2, 20));
    assert_eq!(rows(&shown, 20, 22), vec!["....~.....", "...~~~...."]);
}

#[test]
fn rows_above_the_topmost_cleared_row_move_down_by_the_count() {
    let field = field_with_bottom(&[
        "S.........",
        "ZZZZZZZZZ.",
        ".ZZZZZZZZ.",
        "ZZZZZZZZZ.",
        ".ZZZZZZZZ.",
    ]);
    let mut board = Board::with_field(field, vec![TetrominoType::T, TetrominoType::I]);
    board.rotate(Direction::Clockwise);
    times(4, &mut board, Board::right);
    board.drop_tetromino_with(sorted_bag());
    assert_eq!(board.cleared(), 2);
    assert_eq!(board.score(), 2 * 18 + 100);
    let shown = board.field();
    assert!(is_empty_between(&shown, 2, 18));
    assert_eq!(
        rows(&shown, 18, 22),
        vec!["..........", "S...~.....", "...~~~....", ".ZZZZZZZZI"]
    );
}

#[test]
fn tenth_line_raises_the_level_and_the_points() {
    let field = field_with_bottom(&[
        "ZZZZZZZZ..",
        "ZZZZZZZZ..",
        "ZZZZZZZZZ.",
        "ZZZZZZZZZ.",
        "ZZZZZZZZZ.",
        "ZZZZZZZZZ.",
        "ZZZZZZZZZ.",
        "ZZZZZZZZZ.",
        "ZZZZZZZZZ.",
        "ZZZZZZZZZ.",
    ]);
    let refill = vec![
        TetrominoType::J,
        TetrominoType::L,
        TetrominoType::O,
        TetrominoType::S,
        TetrominoType::T,
        TetrominoType::Z,
        TetrominoType::I,
    ];
    let mut board = Board::with_field(field, vec![TetrominoType::O, TetrominoType::I]);

    // The bar clears the four lowest rows.
    board.rotate(Direction::Clockwise);
    times(4, &mut board, Board::right);
    board.drop_tetromino_with(refill.clone());
    assert_eq!((board.cleared(), board.level(), board.score()), (4, 0, 1236));

    // The square waits in the hold slot while the next bar clears four more.
    board.hold_tetromino_with(sorted_bag());
    assert_eq!(board.hold().unwrap().tetromino_type(), TetrominoType::O);
    board.rotate(Direction::Clockwise);
    times(4, &mut board, Board::right);
    board.drop_tetromino_with(sorted_bag());
    assert_eq!((board.cleared(), board.level(), board.score()), (8, 0, 2472));
    assert_eq!(
        rows(&board.field(), 18, 22),
        vec!["...~~.....", "....~~....", "ZZZZZZZZ..", "ZZZZZZZZ.."]
    );

    // The square comes back and clears the tenth line.
    board.hold_tetromino_with(sorted_bag());
    assert_eq!(board.hold().unwrap().tetromino_type(), TetrominoType::Z);
    times(4, &mut board, Board::right);
    board.drop_tetromino_with(sorted_bag());
    assert_eq!(board.cleared(), 10);
    assert_eq!(board.level(), 1);
    assert_eq!(board.score(), 2472 + 2 * 20 + 100 * 2);
    let shown = board.field();
    assert_eq!(rows(&shown, 0, 2), vec!["....T.....", "...TTT...."]);
    assert!(is_empty_between(&shown, 2, 20));
    assert_eq!(rows(&shown, 20, 22), vec!["....~.....", "...~~~...."]);
}

#[test]
fn shadow_does_not_complete_a_row() {
    // The square comes to rest on a row that only its own shadow would
    // have completed: the row stays.
    let field = field_with_bottom(&["JJJJJJJJ.."]);
    let mut board = Board::with_field(field, vec![TetrominoType::T, TetrominoType::O]);
    times(4, &mut board, Board::right);
    board.down();
    assert_eq!(rows(&board.field(), 20, 22), vec!["........~~", "JJJJJJJJ~~"]);
    times(3, &mut board, Board::left);
    assert_eq!(rows(&board.field(), 19, 22), vec![".....~~...", ".....~~...", "JJJJJJJJ.."]);
    board.drop_tetromino_with(sorted_bag());
    assert_eq!(board.cleared(), 0);
    assert_eq!(board.score(), 2 * 18);
    assert_eq!(
        rows(&board.field(), 17, 22),
        vec!["....~.....", "...~~~....", ".....OO...", ".....OO...", "JJJJJJJJ.."]
    );
}

#[test]
fn refill_takes_the_place_of_a_sequence_that_runs_out() {
    let refill = vec![
        TetrominoType::Z,
        TetrominoType::T,
        TetrominoType::S,
        TetrominoType::O,
        TetrominoType::L,
        TetrominoType::J,
        TetrominoType::I,
    ];
    let mut board = Board::with_field(empty_field(), vec![TetrominoType::T, TetrominoType::O]);
    assert_eq!(board.peek_next().tetromino_type(), TetrominoType::T);
    times(4, &mut board, Board::left);
    board.drop_tetromino_with(refill.clone());
    // The last of the old sequence is active, the new one stands ready.
    assert_eq!(rows(&board.field(), 0, 2), vec!["....T.....", "...TTT...."]);
    let mut dealt = Vec::new();
    for i in 0..7 {
        dealt.push(board.peek_next().tetromino_type());
        if i % 2 == 0 {
            times(3, &mut board, Board::right);
        } else {
            times(3, &mut board, Board::left);
        }
        board.drop_tetromino_with(sorted_bag());
    }
    assert_eq!(
        dealt,
        vec![
            TetrominoType::I,
            TetrominoType::J,
            TetrominoType::L,
            TetrominoType::O,
            TetrominoType::S,
            TetrominoType::T,
            TetrominoType::Z,
        ]
    );
    // And after those seven, the next refill: its last kind comes first.
    assert_eq!(board.peek_next().tetromino_type(), TetrominoType::Z);
}

#[test]
fn hold_stores_the_piece_and_spawns_the_next() {
    let bag = vec![TetrominoType::S, TetrominoType::T, TetrominoType::Z];
    let mut board = Board::with_field(empty_field(), bag);
    board.right();
    board.down();
    board.hold_tetromino_with(sorted_bag());
    let held = board.hold().unwrap();
    assert_eq!(held.tetromino_type(), TetrominoType::Z);
    assert_eq!(held.origin(), Point::new(3, 0));
    assert_eq!(held.rot(), Rotation::Spawn);
    let shown = board.field();
    assert_eq!(rows(&shown, 0, 2), vec!["....T.....", "...TTT...."]);
    assert!(is_empty_between(&shown, 2, 20));
    assert_eq!(rows(&shown, 20, 22), vec!["....~.....", "...~~~...."]);
    assert_eq!(board.peek_next().tetromino_type(), TetrominoType::S);
    assert_eq!(board.score(), 0);
}

#[test]
fn hold_is_locked_until_the_piece_comes_to_rest() {
    let bag = vec![TetrominoType::S, TetrominoType::T, TetrominoType::Z];
    let mut board = Board::with_field(empty_field(), bag);
    board.hold_tetromino_with(sorted_bag());
    let after_first = board.field();
    board.hold_tetromino_with(sorted_bag());
    assert_eq!(board.field(), after_first);
    assert_eq!(board.hold().unwrap().tetromino_type(), TetrominoType::Z);
    assert_eq!(board.peek_next().tetromino_type(), TetrominoType::S);

    // The piece comes to rest: the slot opens again, and the pieces swap.
    board.drop_tetromino_with(sorted_bag());
    assert_eq!(rows(&board.field(), 0, 2), vec!["....SS....", "...SS....."]);
    board.hold_tetromino_with(sorted_bag());
    assert_eq!(board.hold().unwrap().tetromino_type(), TetrominoType::S);
    let shown = board.field();
    assert_eq!(rows(&shown, 0, 2), vec!["...ZZ.....", "....ZZ...."]);
    assert_eq!(
        rows(&shown, 18, 22),
        vec!["...~~.....", "....~~....", "....T.....", "...TTT...."]
    );
}

#[test]
fn held_piece_keeps_its_rotation() {
    let bag = vec![TetrominoType::S, TetrominoType::T, TetrominoType::Z];
    let mut board = Board::with_field(empty_field(), bag);
    board.rotate(Direction::Clockwise);
    times(2, &mut board, Board::down);
    board.hold_tetromino_with(sorted_bag());
    let held = board.hold().unwrap();
    assert_eq!(held.rot(), Rotation::Right);
    assert_eq!(held.origin(), Point::new(3, 0));
    board.drop_tetromino_with(sorted_bag());
    board.hold_tetromino_with(sorted_bag());
    assert_eq!(rows(&board.field(), 0, 3), vec![".....Z....", "....ZZ....", "....Z....."]);
}

#[test]
fn piece_that_cannot_enter_tops_the_board_out() {
    let mut field = empty_field();
    field[1][4] = Some(TetrominoType::J);
    let mut board = Board::with_field(field, sorted_bag());
    assert!(board.is_topped_out());
    let shown = board.field();
    // The cells before the occupied one were drawn, the rest was not.
    assert_eq!(rows(&shown, 0, 2), vec!["...ZZ.....", "....J....."]);

    let score = board.score();
    board.tick_with(sorted_bag());
    board.left();
    board.right();
    board.down();
    board.rotate(Direction::Clockwise);
    board.hold_tetromino_with(sorted_bag());
    board.drop_tetromino_with(sorted_bag());
    assert_eq!(board.field(), shown);
    assert_eq!(board.score(), score);
    assert_eq!(board.cleared(), 0);
    assert!(board.hold().is_none());
    assert!(board.is_topped_out());
    assert_eq!(board.peek_next().tetromino_type(), TetrominoType::T);
}

#[test]
fn stack_that_reaches_the_top_ends_the_game() {
    let mut board = Board::with_field(empty_field(), vec![TetrominoType::O, TetrominoType::I]);
    let mut drops = 0;
    while !board.is_topped_out() {
        assert!(drops < 40);
        board.drop_tetromino();
        drops += 1;
    }
    assert!(drops >= 5);
    let shown = board.field();
    let score = board.score();
    board.tick();
    board.drop_tetromino();
    board.hold_tetromino();
    board.left();
    assert_eq!(board.field(), shown);
    assert_eq!(board.score(), score);
    assert!(board.is_topped_out());
}

#[test]
fn new_board_is_empty_but_for_its_first_piece() {
    let board = Board::new();
    assert!(!board.is_topped_out());
    assert_eq!((board.score(), board.level(), board.cleared()), (0, 0, 0));
    assert!(board.hold().is_none());
    assert!(board.has_headroom());
    let field = board.field();
    let mut piece = 0;
    let mut shadow = 0;
    for y in 0..HEIGHT {
        for x in 0..WIDTH {
            match field[y][x] {
                None => {},
                Some(TetrominoType::Shadow) => {
                    assert!(y >= 18);
                    shadow += 1;
                },
                Some(_) => {
                    assert!(y < 2 && (3..7).contains(&x));
                    piece += 1;
                },
            }
        }
    }
    assert_eq!(piece, 4);
    assert_eq!(shadow, 4);
}

#[test]
fn new_boards_do_not_all_start_with_the_same_piece() {
    let mut seen = Vec::new();
    for _ in 0..64 {
        let field = Board::new().field();
        let kind = field.iter().flatten().flatten().find(|k| **k != TetrominoType::Shadow);
        let kind = *kind.unwrap();
        if !seen.contains(&kind) {
            seen.push(kind);
        }
    }
    assert!(seen.len() > 1);
}

#[test]
fn first_seven_pieces_of_a_new_board_are_one_of_each_kind() {
    for _ in 0..50 {
        let mut board = Board::new();
        let field = board.field();
        let first =
            *field.iter().flatten().flatten().find(|k| **k != TetrominoType::Shadow).unwrap();
        let mut dealt = vec![first];
        for i in 0..6 {
            dealt.push(board.peek_next().tetromino_type());
            match i % 3 {
                0 => times(3, &mut board, Board::left),
                1 => times(3, &mut board, Board::right),
                _ => {},
            }
            board.drop_tetromino();
        }
        for kind in sorted_bag() {
            assert_eq!(dealt.iter().filter(|k| **k == kind).count(), 1);
        }
        // The sequence has run out and was shuffled anew: seven more.
        let mut again = Vec::new();
        for i in 0..7 {
            again.push(board.peek_next().tetromino_type());
            match i % 3 {
                0 => times(3, &mut board, Board::left),
                1 => times(3, &mut board, Board::right),
                _ => {},
            }
            board.drop_tetromino();
            assert!(!board.is_topped_out());
        }
        for kind in sorted_bag() {
            assert_eq!(again.iter().filter(|k| **k == kind).count(), 1);
        }
    }
}

#[test]
fn held_piece_that_cannot_enter_tops_the_board_out() {
    // Column 6 is full but for its two top cells.
    let mut field = empty_field();
    for y in 2..HEIGHT {
        field[y][6] = Some(TetrominoType::Z);
    }
    let bag = vec![TetrominoType::S, TetrominoType::O, TetrominoType::J, TetrominoType::I];
    let mut board = Board::with_field(field, bag);
    assert_eq!(rows(&board.field(), 0, 3), vec!["..........", "...IIII...", "......Z..."]);

    // The bar waits in the hold slot; the next piece comes to rest on top
    // of the column, where the bar would have to enter.
    board.hold_tetromino_with(sorted_bag());
    times(3, &mut board, Board::right);
    board.tick_with(sorted_bag());
    assert_eq!(rows(&board.field(), 0, 3), vec!["....OOJ...", "....OOJJJ.", "......Z..."]);
    assert!(!board.is_topped_out());

    board.hold_tetromino_with(sorted_bag());
    assert!(board.is_topped_out());
    assert_eq!(board.hold().unwrap().tetromino_type(), TetrominoType::O);
    // Three cells of the bar were drawn before the occupied one.
    assert_eq!(rows(&board.field(), 0, 3), vec!["......J...", "...IIIJJJ.", "......Z..."]);
    assert_eq!(board.score(), 0);
}

#[test]
fn rotation_at_the_wall_kicks_the_piece_and_drops_the_shadow_anew() {
    let bag = vec![TetrominoType::O, TetrominoType::T, TetrominoType::I];
    let mut board = Board::with_field(empty_field(), bag);
    board.rotate(Direction::Clockwise);
    times(5, &mut board, Board::left);
    assert_eq!(
        rows(&board.field(), 0, 5),
        vec!["I.........", "I.........", "I.........", "I.........", ".........."]
    );
    assert_eq!(
        rows(&board.field(), 18, 22),
        vec!["~.........", "~.........", "~.........", "~........."]
    );
    board.rotate(Direction::Clockwise);
    let shown = board.field();
    assert_eq!(rows(&shown, 0, 4), vec!["..........", "..........", "IIII......", ".........."]);
    assert!(is_empty_between(&shown, 3, 21));
    assert_eq!(rows(&shown, 21, 22), vec!["~~~~......"]);
}

#[test]
fn piece_that_cannot_enter_after_a_lock_tops_the_board_out() {
    // A tower in the middle, one row short of the top.
    let mut field = empty_field();
    for y in 2..HEIGHT {
        field[y][4] = Some(TetrominoType::J);
    }
    let bag = vec![TetrominoType::S, TetrominoType::T, TetrominoType::O];
    let mut board = Board::with_field(field, bag);
    assert!(!board.is_topped_out());
    board.tick_with(sorted_bag());
    // The square could not go down: it came to rest where it entered, and
    // the next piece finds its first cell taken.
    assert!(board.is_topped_out());
    assert_eq!(board.score(), 0);
    let shown = board.field();
    assert_eq!(rows(&shown, 0, 3), vec!["....OO....", "....OO....", "....J....."]);
    board.tick_with(sorted_bag());
    assert_eq!(board.field(), shown);
}

#[test]
fn four_rotations_lead_back_to_the_same_board() {
    for dir in [Direction::Clockwise, Direction::CounterClockwise] {
        for kind in sorted_bag() {
            let other = if kind == TetrominoType::O {
                TetrominoType::I
            } else {
                TetrominoType::O
            };
            let mut board = Board::with_field(empty_field(), vec![other, kind]);
            times(5, &mut board, Board::down);
            let before = board.field();
            for _ in 0..3 {
                board.rotate(dir);
            }
            if kind != TetrominoType::O {
                assert_ne!(board.field(), before);
            }
            board.rotate(dir);
            assert_eq!(board.field(), before);
        }
    }
}
