use tetris::board::{Field, HEIGHT, WIDTH};
use tetris::srs::{rotate, Direction};
use tetris::tetromino::{Point, Rotation, Tetromino, TetrominoType};

fn empty_field() -> Field {
    [[None; WIDTH]; HEIGHT]
}

fn full_field() -> Field {
    [[Some(TetrominoType::J); WIDTH]; HEIGHT]
}

fn cells(piece: &Tetromino) -> Vec<(usize, usize)> {
    piece
        .minos()
        .iter()
        .map(|m| ((piece.origin().x + m.x) as usize, (piece.origin().y + m.y) as usize))
        .collect()
}

fn draw(field: &mut Field, piece: &Tetromino) {
    for (x, y) in cells(piece) {
        field[y][x] = Some(piece.tetromino_type());
    }
}

fn carve(field: &mut Field, piece: &Tetromino) {
    for (x, y) in cells(piece) {
        field[y][x] = None;
    }
}

#[test]
fn turns_in_place_on_an_empty_field() {
    let piece = Tetromino::new(Point::new(3, 5), TetrominoType::T, Rotation::Spawn);
    let mut field = empty_field();
    draw(&mut field, &piece);
    let (turned_field, turned) = rotate(&field, &piece, Direction::Clockwise).unwrap();
    assert_eq!(turned.origin(), Point::new(3, 5));
    assert_eq!(turned.rot(), Rotation::Right);
    assert_eq!(turned.tetromino_type(), TetrominoType::T);
    let mut expected = empty_field();
    expected[5][4] = Some(TetrominoType::T);
    expected[6][4] = Some(TetrominoType::T);
    expected[6][5] = Some(TetrominoType::T);
    expected[7][4] = Some(TetrominoType::T);
    assert_eq!(turned_field, expected);
}

#[test]
fn clockwise_goes_spawn_right_rot2_left_spawn() {
    let mut piece = Tetromino::new(Point::new(3, 5), TetrominoType::L, Rotation::Spawn);
    let mut field = empty_field();
    draw(&mut field, &piece);
    let mut seen = Vec::new();
    for _ in 0..4 {
        let (next_field, next) = rotate(&field, &piece, Direction::Clockwise).unwrap();
        field = next_field;
        piece = next;
        seen.push(piece.rot());
    }
    assert_eq!(seen, vec![Rotation::Right, Rotation::Rot2, Rotation::Left, Rotation::Spawn]);
}

#[test]
fn counterclockwise_goes_spawn_left_rot2_right_spawn() {
    let mut piece = Tetromino::new(Point::new(3, 5), TetrominoType::L, Rotation::Spawn);
    let mut field = empty_field();
    draw(&mut field, &piece);
    let mut seen = Vec::new();
    for _ in 0..4 {
        let (next_field, next) = rotate(&field, &piece, Direction::CounterClockwise).unwrap();
        field = next_field;
        piece = next;
        seen.push(piece.rot());
    }
    assert_eq!(seen, vec![Rotation::Left, Rotation::Rot2, Rotation::Right, Rotation::Spawn]);
}

#[test]
fn four_turns_without_a_kick_lead_back() {
    let kinds = [
        TetrominoType::I,
        TetrominoType::J,
        TetrominoType::L,
        TetrominoType::O,
        TetrominoType::S,
        TetrominoType::T,
        TetrominoType::Z,
    ];
    for kind in kinds {
        for dir in [Direction::Clockwise, Direction::CounterClockwise] {
            let start = Tetromino::new(Point::new(3, 8), kind, Rotation::Spawn);
            let mut field = empty_field();
            draw(&mut field, &start);
            let first = field;
            let mut piece = start;
            for _ in 0..4 {
                let (next_field, next) = rotate(&field, &piece, dir).unwrap();
                field = next_field;
                piece = next;
            }
            assert_eq!(piece.origin(), start.origin());
            assert_eq!(piece.rot(), start.rot());
            assert_eq!(piece.minos(), start.minos());
            assert_eq!(field, first);
        }
    }
}

#[test]
fn long_bar_at_the_left_wall_is_kicked_into_the_field() {
    // Upright in column 0; turned in place it would reach out of the field.
    let piece = Tetromino::new(Point::new(-2, 5), TetrominoType::I, Rotation::Right);
    let mut field = empty_field();
    draw(&mut field, &piece);
    let (turned_field, turned) = rotate(&field, &piece, Direction::Clockwise).unwrap();
    assert_eq!(turned.rot(), Rotation::Rot2);
    assert_eq!(turned.origin(), Point::new(0, 5));
    let mut expected = empty_field();
    for x in 0..4 {
        expected[7][x] = Some(TetrominoType::I);
    }
    assert_eq!(turned_field, expected);
}

#[test]
fn kick_table_is_read_at_the_state_the_piece_turns_from() {
    let piece = Tetromino::new(Point::new(4, 10), TetrominoType::T, Rotation::Spawn);
    let mut field = empty_field();
    draw(&mut field, &piece);
    // The cell below the centre is taken: no room to turn in place.
    field[12][5] = Some(TetrominoType::Z);
    let (turned_field, turned) = rotate(&field, &piece, Direction::Clockwise).unwrap();
    assert_eq!(turned.rot(), Rotation::Right);
    // From spawn, clockwise: the first offset after (0, 0) is one to the left.
    assert_eq!(turned.origin(), Point::new(3, 10));
    let mut expected = empty_field();
    expected[12][5] = Some(TetrominoType::Z);
    expected[10][4] = Some(TetrominoType::T);
    expected[11][4] = Some(TetrominoType::T);
    expected[11][5] = Some(TetrominoType::T);
    expected[12][4] = Some(TetrominoType::T);
    assert_eq!(turned_field, expected);
}

#[test]
fn kicks_are_tried_in_order() {
    let piece = Tetromino::new(Point::new(4, 10), TetrominoType::T, Rotation::Spawn);
    let mut field = empty_field();
    draw(&mut field, &piece);
    field[12][5] = Some(TetrominoType::Z);
    // Now the first kick is blocked too; the second, one left and one up,
    // is free.
    field[12][4] = Some(TetrominoType::Z);
    let (_, turned) = rotate(&field, &piece, Direction::Clockwise).unwrap();
    assert_eq!(turned.rot(), Rotation::Right);
    assert_eq!(turned.origin(), Point::new(3, 9));
}

#[test]
fn last_kick_of_the_row_is_reached() {
    let piece = Tetromino::new(Point::new(4, 10), TetrominoType::T, Rotation::Spawn);
    let mut field = empty_field();
    draw(&mut field, &piece);
    // In place and two down are blocked by the cell below the centre; one
    // left, and one left and one up, by the cell left of the top.
    field[12][5] = Some(TetrominoType::Z);
    field[10][4] = Some(TetrominoType::Z);
    let (_, turned) = rotate(&field, &piece, Direction::Clockwise).unwrap();
    // The fifth test is one left and two down.
    assert_eq!(turned.rot(), Rotation::Right);
    assert_eq!(turned.origin(), Point::new(3, 12));
}

#[test]
fn rotation_fails_where_nothing_fits() {
    let piece = Tetromino::new(Point::new(0, 20), TetrominoType::I, Rotation::Spawn);
    let mut field = full_field();
    carve(&mut field, &piece);
    draw(&mut field, &piece);
    let before = field;
    assert!(rotate(&field, &piece, Direction::Clockwise).is_none());
    assert!(rotate(&field, &piece, Direction::CounterClockwise).is_none());
    assert_eq!(field, before);
}

#[test]
fn own_cells_never_block_a_rotation() {
    // A square in a hole of its own size: every cell it turns into is one
    // it covers already.
    let piece = Tetromino::new(Point::new(2, 7), TetrominoType::O, Rotation::Spawn);
    let mut field = full_field();
    carve(&mut field, &piece);
    draw(&mut field, &piece);
    let (turned_field, turned) = rotate(&field, &piece, Direction::Clockwise).unwrap();
    assert_eq!(turned.origin(), piece.origin());
    assert_eq!(turned.rot(), Rotation::Right);
    assert_eq!(turned_field, field);
}

#[test]
fn preview_markers_do_not_block_a_rotation() {
    let piece = Tetromino::new(Point::new(3, 5), TetrominoType::T, Rotation::Spawn);
    let mut field = empty_field();
    draw(&mut field, &piece);
    field[7][4] = Some(TetrominoType::Shadow);
    let (turned_field, turned) = rotate(&field, &piece, Direction::Clockwise).unwrap();
    assert_eq!(turned.origin(), Point::new(3, 5));
    assert_eq!(turned_field[7][4], Some(TetrominoType::T));
}

#[test]
fn long_bar_uses_its_own_kick_table() {
    // Flat at the floor; upright it would reach below the field.
    let piece = Tetromino::new(Point::new(3, 20), TetrominoType::I, Rotation::Spawn);
    let mut field = empty_field();
    draw(&mut field, &piece);
    let (_, turned) = rotate(&field, &piece, Direction::Clockwise).unwrap();
    assert_eq!(turned.rot(), Rotation::Right);
    // Tests (0,0), (-2,0), (1,0), (-2,1) all reach below the floor; the
    // last, one right and two up, fits.
    assert_eq!(turned.origin(), Point::new(4, 18));
}

#[test]
fn leaving_left_counterclockwise_the_fourth_test_is_two_up() {
    let piece = Tetromino::new(Point::new(3, 5), TetrominoType::T, Rotation::Left);
    let mut field = empty_field();
    draw(&mut field, &piece);
    // In place is blocked on the right; one left, and one left and one
    // down, are blocked below.
    field[6][5] = Some(TetrominoType::J);
    field[7][3] = Some(TetrominoType::J);
    let (_, turned) = rotate(&field, &piece, Direction::CounterClockwise).unwrap();
    assert_eq!(turned.rot(), Rotation::Rot2);
    assert_eq!(turned.origin(), Point::new(3, 3));
}

#[test]
fn leaving_left_the_tests_are_the_same_in_both_directions() {
    for dir in [Direction::Clockwise, Direction::CounterClockwise] {
        let piece = Tetromino::new(Point::new(3, 5), TetrominoType::T, Rotation::Left);
        let mut field = empty_field();
        draw(&mut field, &piece);
        // The column right of the piece is full: nothing fits in place.
        for y in 0..HEIGHT {
            field[y][5] = Some(TetrominoType::J);
        }
        let (_, turned) = rotate(&field, &piece, dir).unwrap();
        assert_eq!(turned.origin(), Point::new(2, 5));
    }
}

#[test]
fn long_bar_leaving_right_counterclockwise_is_kicked_two_right_and_one_up() {
    let piece = Tetromino::new(Point::new(3, 10), TetrominoType::I, Rotation::Right);
    let mut field = empty_field();
    draw(&mut field, &piece);
    // In place and two to the right are blocked by one cell, one to the
    // left by another.
    field[11][6] = Some(TetrominoType::J);
    field[11][2] = Some(TetrominoType::J);
    let (turned_field, turned) = rotate(&field, &piece, Direction::CounterClockwise).unwrap();
    assert_eq!(turned.rot(), Rotation::Spawn);
    assert_eq!(turned.origin(), Point::new(5, 9));
    for x in 5..9 {
        assert_eq!(turned_field[10][x], Some(TetrominoType::I));
    }
}

#[test]
fn long_bar_leaving_left_counterclockwise_is_kicked_two_left_first() {
    let piece = Tetromino::new(Point::new(3, 10), TetrominoType::I, Rotation::Left);
    let mut field = empty_field();
    draw(&mut field, &piece);
    field[12][6] = Some(TetrominoType::J);
    let (turned_field, turned) = rotate(&field, &piece, Direction::CounterClockwise).unwrap();
    assert_eq!(turned.rot(), Rotation::Rot2);
    assert_eq!(turned.origin(), Point::new(1, 10));
    for x in 1..5 {
        assert_eq!(turned_field[12][x], Some(TetrominoType::I));
    }
}

#[test]
fn kick_is_undone_by_the_turn_back() {
    // Kicked one to the left on the way there, one to the right on the way
    // back.
    let piece = Tetromino::new(Point::new(4, 10), TetrominoType::T, Rotation::Spawn);
    let mut field = empty_field();
    draw(&mut field, &piece);
    field[12][5] = Some(TetrominoType::Z);
    let (there, turned) = rotate(&field, &piece, Direction::Clockwise).unwrap();
    assert_eq!(turned.origin(), Point::new(3, 10));
    let mut blocked = there;
    // Now the place it would turn back into, without a kick, is taken.
    blocked[11][3] = Some(TetrominoType::Z);
    let (_, back) = rotate(&blocked, &turned, Direction::CounterClockwise).unwrap();
    assert_eq!(back.rot(), Rotation::Spawn);
    assert_eq!(back.origin(), Point::new(4, 10));
}
