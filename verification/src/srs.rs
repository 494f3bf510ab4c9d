//! Rotation with wall kicks: a piece that cannot turn in place is offered a
//! fixed list of nearby places, and takes the first that is free.

use crate::grid::{
    cell_of, clear, fits, grid_of, inside, is_open, lemma_clear_cell_by_cell, near,
    open_at, paint, stamp, well_shaped, Field, Grid, HEIGHT, WIDTH,
};
use crate::tetromino::{
    boxed, lemma_shape_in_box, Piece, Point, Pos, Rotation, Tetromino, TetrominoType, MINOS,
};
use vstd::prelude::*;

verus! {

/// Number of places a blocked rotation is offered.
pub const TESTS: usize = 5;

/// The sense of a rotation.
#[derive(Copy, Clone, Debug, PartialEq, Eq, Structural)]
pub enum Direction {
    Clockwise,
    CounterClockwise,
}

/// The rotation state that follows `rot` in the direction `dir`.
pub open spec fn turn(rot: Rotation, dir: Direction) -> Rotation {
    match dir {
        Direction::Clockwise => match rot {
            Rotation::Spawn => Rotation::Right,
            Rotation::Right => Rotation::Rot2,
            Rotation::Rot2 => Rotation::Left,
            Rotation::Left => Rotation::Spawn,
        },
        Direction::CounterClockwise => match rot {
            Rotation::Spawn => Rotation::Left,
            Rotation::Right => Rotation::Spawn,
            Rotation::Rot2 => Rotation::Right,
            Rotation::Left => Rotation::Rot2,
        },
    }
}

/// The piece turned in place: same origin and kind, next rotation state,
/// and the cells the catalog gives for it.
pub open spec fn turned(p: Piece, dir: Direction) -> Piece {
    Piece::fresh(p.origin, p.kind, turn(p.rot, dir))
}

/// Five offsets written out coordinate by coordinate.
pub open spec fn five(
    x0: int,
    y0: int,
    x1: int,
    y1: int,
    x2: int,
    y2: int,
    x3: int,
    y3: int,
    x4: int,
    y4: int,
) -> Seq<Pos> {
    seq![
        Pos { x: x0, y: y0 },
        Pos { x: x1, y: y1 },
        Pos { x: x2, y: y2 },
        Pos { x: x3, y: y3 },
        Pos { x: x4, y: y4 },
    ]
}

/// The kick table of every kind but the long bar: the offsets to try, in
/// order, when a piece in state `from` turns in the direction `dir`.
pub open spec fn kicks_common(from: Rotation, dir: Direction) -> Seq<Pos> {
    match (from, dir) {
        (Rotation::Spawn, Direction::Clockwise) => five(0, 0, -1, 0, -1, -1, 0, 2, -1, 2),
        (Rotation::Spawn, Direction::CounterClockwise) => five(0, 0, 1, 0, 1, -1, 0, 2, 1, 2),
        (Rotation::Right, Direction::Clockwise) => five(0, 0, 1, 0, 1, 1, 0, -2, 1, -2),
        (Rotation::Right, Direction::CounterClockwise) => five(0, 0, 1, 0, 1, 1, 0, -2, 1, -2),
        (Rotation::Rot2, Direction::Clockwise) => five(0, 0, 1, 0, 1, -1, 0, 2, 1, 2),
        (Rotation::Rot2, Direction::CounterClockwise) => five(0, 0, -1, 0, -1, -1, 0, 2, -1, 2),
        (Rotation::Left, Direction::Clockwise) => five(0, 0, -1, 0, -1, 1, 0, -2, -1, -2),
        (Rotation::Left, Direction::CounterClockwise) => five(0, 0, -1, 0, -1, 1, 0, -2, -1, -2),
    }
}

/// The kick table of the long bar.
pub open spec fn kicks_bar(from: Rotation, dir: Direction) -> Seq<Pos> {
    match (from, dir) {
        (Rotation::Spawn, Direction::Clockwise) => five(0, 0, -2, 0, 1, 0, -2, 1, 1, -2),
        (Rotation::Spawn, Direction::CounterClockwise) => five(0, 0, -1, 0, 2, 0, -1, -2, 2, 1),
        (Rotation::Right, Direction::Clockwise) => five(0, 0, -1, 0, 2, 0, -1, -2, 2, 1),
        (Rotation::Right, Direction::CounterClockwise) => five(0, 0, 2, 0, -1, 0, 2, -1, -1, 2),
        (Rotation::Rot2, Direction::Clockwise) => five(0, 0, 2, 0, -1, 0, 2, -1, -1, 2),
        (Rotation::Rot2, Direction::CounterClockwise) => five(0, 0, 1, 0, -2, 0, 1, 2, -2, -1),
        (Rotation::Left, Direction::Clockwise) => five(0, 0, 1, 0, -2, 0, 1, 2, -2, -1),
        (Rotation::Left, Direction::CounterClockwise) => five(0, 0, -2, 0, 1, 0, -2, 1, 1, -2),
    }
}

/// The offsets to try, in order, when a piece of the given kind in state
/// `from` turns in the direction `dir`.
pub open spec fn kicks(kind: TetrominoType, from: Rotation, dir: Direction) -> Seq<Pos> {
    match kind {
        TetrominoType::I => kicks_bar(from, dir),
        _ => kicks_common(from, dir),
    }
}

/// The first of the offsets `tests[i..]` at which the turned piece `q` is
/// free of the scratch grid, applied to `q`; none if there is no such
/// offset.
pub open spec fn first_kick(scratch: Grid, q: Piece, tests: Seq<Pos>, i: int) -> Option<Piece>
    decreases tests.len() - i,
{
    if i < 0 || i >= tests.len() {
        None
    } else if clear(scratch, q.shifted(tests[i].x, tests[i].y)) {
        Some(q.shifted(tests[i].x, tests[i].y))
    } else {
        first_kick(scratch, q, tests, i + 1)
    }
}

/// What turning `p` gives on a scratch grid from which `p` itself has been
/// erased: the piece turned in place if that is free, else the first kick
/// that is, else nothing.
#[verifier::opaque]
pub open spec fn attempt(scratch: Grid, p: Piece, dir: Direction) -> Option<Piece> {
    let q = turned(p, dir);
    if clear(scratch, q) {
        Some(q)
    } else {
        first_kick(scratch, q, kicks(p.kind, p.rot, dir), 0)
    }
}

/// What turning the piece `p`, drawn on the grid `g`, gives: the place it
/// takes, or nothing when the rotation fails.
pub open spec fn rotation(g: Grid, p: Piece, dir: Direction) -> Option<Piece> {
    attempt(stamp(g, p, MINOS as int, None), p, dir)
}

/// Rotates a Tetromino located inside a field in a specified direction.
///
/// On success the result holds a copy of the field in which the piece has
/// left its old cells and taken its new ones, and the piece in its new
/// place. On failure there is no result, and nothing has changed.
pub fn rotate(field: &Field, tetromino: &Tetromino, dir: Direction) -> (result: Option<
    (Field, Tetromino),
>)
    requires
        tetromino@.is_playable(),
        inside(tetromino@),
    ensures
        match rotation(grid_of(*field), tetromino@, dir) {
            Some(q) => {
                &&& result matches Some((turned_field, turned_piece))
                &&& turned_piece@ == q
                &&& grid_of(turned_field) == stamp(
                    stamp(grid_of(*field), tetromino@, MINOS as int, None),
                    q,
                    MINOS as int,
                    Some(q.kind),
                )
            },
            None => result is None,
        },
{
    let mut field = *field;
    proof {
        lemma_shape_in_box(tetromino@.kind, tetromino@.rot);
    }

    // The piece leaves the copy first, so that its own cells never stand in
    // the way of its rotation.
    erase(&mut field, tetromino);

    if let Some(rotated) = is_rotatable(&field, tetromino, dir) {
        proof {
            lemma_attempt_is_clear(grid_of(field), tetromino@, dir);
        }
        do_rotation(&mut field, &rotated);
        Some((field, rotated))
    } else {
        None
    }
}

/// Erases a Tetromino from a field.
fn erase(field: &mut Field, tetromino: &Tetromino)
    requires
        boxed(tetromino@),
        inside(tetromino@),
    ensures
        grid_of(*final(field)) == stamp(grid_of(*old(field)), tetromino@, MINOS as int, None),
{
    paint(field, tetromino, None);
}

/// Tells whether every cell of a piece is on the grid and free.
fn is_clear(field: &Field, tetromino: &Tetromino) -> (b: bool)
    requires
        near(tetromino@),
    ensures
        b == clear(grid_of(*field), tetromino@),
{
    proof {
        lemma_clear_cell_by_cell(grid_of(*field), tetromino@);
    }
    let mut i: usize = 0;
    while i < MINOS
        invariant
            i <= MINOS,
            near(tetromino@),
            forall|k: int|
                0 <= k < i ==> open_at(
                    grid_of(*field),
                    (#[trigger] tetromino@.cell(k)).x,
                    tetromino@.cell(k).y,
                ),
        decreases MINOS - i,
    {
        let pos = cell_of(tetromino, i);
        if !is_open(field, pos) {
            return false;
        }
        i += 1;
    }
    true
}

/// Determines if a Tetromino is rotatable within a field from which it has
/// been erased. Returns the rotated Tetromino if the rotation is possible.
fn is_rotatable(field: &Field, tetromino: &Tetromino, dir: Direction) -> (result: Option<
    Tetromino,
>)
    requires
        tetromino@.is_playable(),
        inside(tetromino@),
    ensures
        match attempt(grid_of(*field), tetromino@, dir) {
            Some(q) => result matches Some(t) && t@ == q,
            None => result is None,
        },
{
    let rotated = next_rotated_tetromino(tetromino, dir);
    proof {
        reveal(attempt);
        lemma_shape_in_box(tetromino@.kind, tetromino@.rot);
        lemma_shape_in_box(rotated@.kind, rotated@.rot);
    }
    if is_clear(field, &rotated) {
        Some(rotated)
    } else {
        wall_kick(field, &rotated, tetromino.rot(), dir)
    }
}

/// Attempts to wall kick a Tetromino that has turned from the state `from`.
fn wall_kick(field: &Field, tetromino: &Tetromino, from: Rotation, dir: Direction) -> (result:
    Option<Tetromino>)
    requires
        boxed(tetromino@),
        -4 <= tetromino@.origin.x <= WIDTH + 4,
        -4 <= tetromino@.origin.y <= HEIGHT + 4,
    ensures
        match first_kick(grid_of(*field), tetromino@, kicks(tetromino@.kind, from, dir), 0) {
            Some(q) => result matches Some(t) && t@ == q,
            None => result is None,
        },
{
    let tests = kick_tests(tetromino.tetromino_type(), from, dir);
    let ghost table = kicks(tetromino@.kind, from, dir);
    proof {
        lemma_kick_tables(tetromino@.kind, from, dir);
    }
    let mut i: usize = 0;
    while i < TESTS
        invariant
            i <= TESTS,
            boxed(tetromino@),
            -4 <= tetromino@.origin.x <= WIDTH + 4,
            -4 <= tetromino@.origin.y <= HEIGHT + 4,
            table == kicks(tetromino@.kind, from, dir),
            table.len() == TESTS,
            forall|k: int| 0 <= k < TESTS ==> tests[k]@ == #[trigger] table[k],
            forall|k: int|
                0 <= k < TESTS ==> -2 <= (#[trigger] table[k]).x <= 2 && -2 <= table[k].y <= 2,
            first_kick(grid_of(*field), tetromino@, table, 0) == first_kick(
                grid_of(*field),
                tetromino@,
                table,
                i as int,
            ),
        decreases TESTS - i,
    {
        let test = tests[i];
        assert(test@ == table[i as int]);
        if let Some(kicked) = test_wall_kick(field, tetromino, test) {
            return Some(kicked);
        }
        i += 1;
    }
    None
}

/// Performs a wall kick test: the piece moved by `test`, if every cell of it
/// is then on the grid and free.
fn test_wall_kick(field: &Field, tetromino: &Tetromino, test: Point) -> (result: Option<
    Tetromino,
>)
    requires
        boxed(tetromino@),
        -4 <= tetromino@.origin.x <= WIDTH + 4,
        -4 <= tetromino@.origin.y <= HEIGHT + 4,
        -2 <= test.x <= 2,
        -2 <= test.y <= 2,
    ensures
        match result {
            Some(t) => t@ == tetromino@.shifted(test@.x, test@.y) && clear(grid_of(*field), t@),
            None => !clear(grid_of(*field), tetromino@.shifted(test@.x, test@.y)),
        },
{
    let mut kicked = *tetromino;
    let new = tetromino.origin() + test;
    kicked.set_origin(new);
    if is_clear(field, &kicked) {
        Some(kicked)
    } else {
        None
    }
}

/// Performs the actual rotation: the piece takes its cells.
fn do_rotation(field: &mut Field, rotated: &Tetromino)
    requires
        boxed(rotated@),
        inside(rotated@),
    ensures
        grid_of(*final(field)) == stamp(
            grid_of(*old(field)),
            rotated@,
            MINOS as int,
            Some(rotated@.kind),
        ),
{
    paint(field, rotated, Some(rotated.tetromino_type()));
}

/// Gets the next rotation of a Tetromino in a specified direction.
fn next_rotated_tetromino(tetromino: &Tetromino, dir: Direction) -> (rotated: Tetromino)
    requires
        tetromino@.kind != TetrominoType::Shadow,
    ensures
        rotated@ == turned(tetromino@, dir),
{
    let rot = match dir {
        Direction::Clockwise => {
            match tetromino.rot() {
                Rotation::Spawn => Rotation::Right,
                Rotation::Right => Rotation::Rot2,
                Rotation::Rot2 => Rotation::Left,
                Rotation::Left => Rotation::Spawn,
            }
        },
        Direction::CounterClockwise => {
            match tetromino.rot() {
                Rotation::Spawn => Rotation::Left,
                Rotation::Right => Rotation::Spawn,
                Rotation::Rot2 => Rotation::Right,
                Rotation::Left => Rotation::Rot2,
            }
        },
    };

    Tetromino::new(tetromino.origin(), tetromino.tetromino_type(), rot)
}

fn tests(
    x0: isize,
    y0: isize,
    x1: isize,
    y1: isize,
    x2: isize,
    y2: isize,
    x3: isize,
    y3: isize,
    x4: isize,
    y4: isize,
) -> (tests: [Point; TESTS])
    ensures
        tests[0]@ == (Pos { x: x0 as int, y: y0 as int }),
        tests[1]@ == (Pos { x: x1 as int, y: y1 as int }),
        tests[2]@ == (Pos { x: x2 as int, y: y2 as int }),
        tests[3]@ == (Pos { x: x3 as int, y: y3 as int }),
        tests[4]@ == (Pos { x: x4 as int, y: y4 as int }),
{
    [
        Point { x: x0, y: y0 },
        Point { x: x1, y: y1 },
        Point { x: x2, y: y2 },
        Point { x: x3, y: y3 },
        Point { x: x4, y: y4 },
    ]
}

/// Looks the offsets up in the kick table of every kind but the long bar.
fn common_tests(from: Rotation, dir: Direction) -> (tests: [Point; TESTS])
    ensures
        forall|k: int| 0 <= k < TESTS ==> tests[k]@ == #[trigger] kicks_common(from, dir)[k],
{
    match (from, dir) {
        (Rotation::Spawn, Direction::Clockwise) => tests(0, 0, -1, 0, -1, -1, 0, 2, -1, 2),
        (Rotation::Spawn, Direction::CounterClockwise) => tests(0, 0, 1, 0, 1, -1, 0, 2, 1, 2),
        (Rotation::Right, Direction::Clockwise) => tests(0, 0, 1, 0, 1, 1, 0, -2, 1, -2),
        (Rotation::Right, Direction::CounterClockwise) => tests(0, 0, 1, 0, 1, 1, 0, -2, 1, -2),
        (Rotation::Rot2, Direction::Clockwise) => tests(0, 0, 1, 0, 1, -1, 0, 2, 1, 2),
        (Rotation::Rot2, Direction::CounterClockwise) => tests(0, 0, -1, 0, -1, -1, 0, 2, -1, 2),
        (Rotation::Left, Direction::Clockwise) => tests(0, 0, -1, 0, -1, 1, 0, -2, -1, -2),
        (Rotation::Left, Direction::CounterClockwise) => tests(0, 0, -1, 0, -1, 1, 0, -2, -1, -2),
    }
}

/// Looks the offsets up in the kick table of the long bar.
fn bar_tests(from: Rotation, dir: Direction) -> (tests: [Point; TESTS])
    ensures
        forall|k: int| 0 <= k < TESTS ==> tests[k]@ == #[trigger] kicks_bar(from, dir)[k],
{
    match (from, dir) {
        (Rotation::Spawn, Direction::Clockwise) => tests(0, 0, -2, 0, 1, 0, -2, 1, 1, -2),
        (Rotation::Spawn, Direction::CounterClockwise) => tests(0, 0, -1, 0, 2, 0, -1, -2, 2, 1),
        (Rotation::Right, Direction::Clockwise) => tests(0, 0, -1, 0, 2, 0, -1, -2, 2, 1),
        (Rotation::Right, Direction::CounterClockwise) => tests(0, 0, 2, 0, -1, 0, 2, -1, -1, 2),
        (Rotation::Rot2, Direction::Clockwise) => tests(0, 0, 2, 0, -1, 0, 2, -1, -1, 2),
        (Rotation::Rot2, Direction::CounterClockwise) => tests(0, 0, 1, 0, -2, 0, 1, 2, -2, -1),
        (Rotation::Left, Direction::Clockwise) => tests(0, 0, 1, 0, -2, 0, 1, 2, -2, -1),
        (Rotation::Left, Direction::CounterClockwise) => tests(0, 0, -2, 0, 1, 0, -2, 1, 1, -2),
    }
}

/// Looks the offsets up in the kick tables.
fn kick_tests(kind: TetrominoType, from: Rotation, dir: Direction) -> (tests: [Point; TESTS])
    ensures
        forall|k: int| 0 <= k < TESTS ==> tests[k]@ == #[trigger] kicks(kind, from, dir)[k],
{
    match kind {
        TetrominoType::I => bar_tests(from, dir),
        _ => common_tests(from, dir),
    }
}

/// A kick that is found puts the piece on free cells of the grid.
pub proof fn lemma_first_kick_is_clear(scratch: Grid, q: Piece, tests: Seq<Pos>, i: int)
    ensures
        first_kick(scratch, q, tests, i) matches Some(r) ==> {
            &&& clear(scratch, r)
            &&& r.minos == q.minos
            &&& r.kind == q.kind
            &&& r.rot == q.rot
        },
    decreases tests.len() - i,
{
    if 0 <= i < tests.len() && !clear(scratch, q.shifted(tests[i].x, tests[i].y)) {
        lemma_first_kick_is_clear(scratch, q, tests, i + 1);
    }
}

/// Kicks are tried strictly in order: the kick that is found is the first
/// of the offsets that leaves the piece on free cells of the grid, and where
/// none is found, none of the offsets does.
pub proof fn lemma_first_kick_is_first(scratch: Grid, q: Piece, tests: Seq<Pos>, i: int)
    requires
        0 <= i,
    ensures
        match first_kick(scratch, q, tests, i) {
            Some(r) => exists|k: int|
                {
                    &&& i <= k < tests.len()
                    &&& r == q.shifted(#[trigger] tests[k].x, tests[k].y)
                    &&& clear(scratch, r)
                    &&& forall|j: int|
                        i <= j < k ==> !clear(scratch, q.shifted(#[trigger] tests[j].x, tests[j].y))
                },
            None => forall|j: int|
                i <= j < tests.len() ==> !clear(
                    scratch,
                    q.shifted(#[trigger] tests[j].x, tests[j].y),
                ),
        },
    decreases tests.len() - i,
{
    if i < tests.len() {
        if clear(scratch, q.shifted(tests[i].x, tests[i].y)) {
            assert(q.shifted(tests[i].x, tests[i].y) == q.shifted(tests[i].x, tests[i].y));
        } else {
            lemma_first_kick_is_first(scratch, q, tests, i + 1);
            match first_kick(scratch, q, tests, i + 1) {
                Some(r) => {
                    let k = choose|k: int|
                        {
                            &&& i + 1 <= k < tests.len()
                            &&& r == q.shifted(#[trigger] tests[k].x, tests[k].y)
                            &&& clear(scratch, r)
                            &&& forall|j: int|
                                i + 1 <= j < k ==> !clear(
                                    scratch,
                                    q.shifted(#[trigger] tests[j].x, tests[j].y),
                                )
                        };
                    assert forall|j: int| i <= j < k implies !clear(
                        scratch,
                        q.shifted(#[trigger] tests[j].x, tests[j].y),
                    ) by {
                        if j > i {
                        }
                    }
                    assert(i <= k < tests.len() && r == q.shifted(tests[k].x, tests[k].y));
                },
                None => {
                    assert forall|j: int| i <= j < tests.len() implies !clear(
                        scratch,
                        q.shifted(#[trigger] tests[j].x, tests[j].y),
                    ) by {
                        if j > i {
                        }
                    }
                },
            }
        }
    }
}

/// Every row of the kick tables has five offsets, none of them further than
/// two cells in either direction, and the first of them is no offset at all.
pub proof fn lemma_kick_tables(kind: TetrominoType, from: Rotation, dir: Direction)
    ensures
        kicks(kind, from, dir).len() == TESTS,
        kicks(kind, from, dir)[0] == (Pos { x: 0, y: 0 }),
        forall|k: int|
            0 <= k < TESTS ==> -2 <= (#[trigger] kicks(kind, from, dir)[k]).x <= 2 && -2 <= kicks(
                kind,
                from,
                dir,
            )[k].y <= 2,
{
}

/// The other direction.
pub open spec fn opposite(dir: Direction) -> Direction {
    match dir {
        Direction::Clockwise => Direction::CounterClockwise,
        Direction::CounterClockwise => Direction::Clockwise,
    }
}

/// The kick tables mirror themselves: each offset for a turn is the
/// opposite of the offset in the same place for the turn back, so that a
/// kick on the way there is undone by the same test on the way back.
pub proof fn lemma_kicks_mirror(kind: TetrominoType, from: Rotation, dir: Direction, k: int)
    requires
        0 <= k < TESTS,
    ensures
        turn(turn(from, dir), opposite(dir)) == from,
        kicks(kind, turn(from, dir), opposite(dir))[k].x == -kicks(kind, from, dir)[k].x,
        kicks(kind, turn(from, dir), opposite(dir))[k].y == -kicks(kind, from, dir)[k].y,
{
}

/// A rotation that succeeds puts the piece, turned once, on free cells of
/// the grid from which it was erased.
pub proof fn lemma_attempt_is_clear(scratch: Grid, p: Piece, dir: Direction)
    requires
        p.is_playable(),
    ensures
        attempt(scratch, p, dir) matches Some(q) ==> {
            &&& clear(scratch, q)
            &&& inside(q)
            &&& boxed(q)
            &&& q.is_playable()
            &&& q.kind == p.kind
            &&& q.rot == turn(p.rot, dir)
        },
{
    reveal(attempt);
    lemma_first_kick_is_clear(scratch, turned(p, dir), kicks(p.kind, p.rot, dir), 0);
    lemma_shape_in_box(p.kind, turn(p.rot, dir));
}

/// A rotation that succeeds gives a place that fits the piece: the rotation
/// system admits the cells that movement admits, and no others.
pub proof fn lemma_rotation_fits(g: Grid, p: Piece, dir: Direction)
    requires
        well_shaped(g),
        p.is_playable(),
    ensures
        rotation(g, p, dir) matches Some(q) ==> {
            &&& fits(g, p, q)
            &&& inside(q)
            &&& boxed(q)
            &&& q.is_playable()
            &&& q.kind == p.kind
            &&& q.rot == turn(p.rot, dir)
        },
{
    lemma_attempt_is_clear(stamp(g, p, MINOS as int, None), p, dir);
}

/// Four turns in the same direction lead back to the rotation state they
/// started from.
pub proof fn lemma_four_turns(rot: Rotation, dir: Direction)
    ensures
        turn(turn(turn(turn(rot, dir), dir), dir), dir) == rot,
{
}

/// A piece turned in place four times in the same direction is the piece it
/// was: same rotation state, same cells, same origin.
pub proof fn lemma_four_turns_in_place(p: Piece, dir: Direction)
    requires
        p.is_playable(),
    ensures
        turned(turned(turned(turned(p, dir), dir), dir), dir) == p,
        turned(p, dir).origin == p.origin,
{
    lemma_four_turns(p.rot, dir);
}

/// Turning one way and then the other leads back to the same piece.
pub proof fn lemma_turn_back(p: Piece, dir: Direction)
    requires
        p.is_playable(),
    ensures
        turned(turned(p, Direction::Clockwise), Direction::CounterClockwise) == p,
        turned(turned(p, Direction::CounterClockwise), Direction::Clockwise) == p,
{
}

/// The square never needs a kick: wherever it stands on the grid, it turns
/// in place.
pub proof fn lemma_square_turns_in_place(g: Grid, p: Piece, dir: Direction)
    requires
        well_shaped(g),
        p.is_playable(),
        p.kind == TetrominoType::O,
        inside(p),
    ensures
        rotation(g, p, dir) == Some(turned(p, dir)),
{
    reveal(attempt);
}

} // verus!
