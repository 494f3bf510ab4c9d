use tetris::tetromino::{Point, Rotation, Tetromino, TetrominoType};

const KINDS: [TetrominoType; 7] = [
    TetrominoType::I,
    TetrominoType::J,
    TetrominoType::L,
    TetrominoType::O,
    TetrominoType::S,
    TetrominoType::T,
    TetrominoType::Z,
];

const ROTATIONS: [Rotation; 4] = [Rotation::Spawn, Rotation::Right, Rotation::Rot2, Rotation::Left];

fn offsets(kind: TetrominoType, rot: Rotation) -> Vec<(isize, isize)> {
    Tetromino::new(Point::new(0, 0), kind, rot).minos().iter().map(|p| (p.x, p.y)).collect()
}

#[test]
fn new_piece_keeps_what_it_was_given() {
    let piece = Tetromino::new(Point::new(3, 0), TetrominoType::T, Rotation::Left);
    assert_eq!(piece.origin(), Point::new(3, 0));
    assert_eq!(piece.tetromino_type(), TetrominoType::T);
    assert_eq!(piece.rot(), Rotation::Left);
}

#[test]
fn point_new_and_addition() {
    let p = Point::new(-2, 7);
    assert_eq!(p.x, -2);
    assert_eq!(p.y, 7);
    assert_eq!(p + Point::new(5, -3), Point::new(3, 4));
}

#[test]
fn set_origin_moves_the_piece_and_keeps_its_cells() {
    let mut piece = Tetromino::new(Point::new(3, 0), TetrominoType::L, Rotation::Right);
    let before = piece.minos();
    piece.set_origin(Point::new(-1, 12));
    assert_eq!(piece.origin(), Point::new(-1, 12));
    assert_eq!(piece.minos(), before);
    assert_eq!(piece.tetromino_type(), TetrominoType::L);
    assert_eq!(piece.rot(), Rotation::Right);
}

#[test]
fn long_bar_lies_in_a_four_by_four_box() {
    assert_eq!(offsets(TetrominoType::I, Rotation::Spawn), vec![(0, 1), (1, 1), (2, 1), (3, 1)]);
    assert_eq!(offsets(TetrominoType::I, Rotation::Right), vec![(2, 0), (2, 1), (2, 2), (2, 3)]);
    assert_eq!(offsets(TetrominoType::I, Rotation::Rot2), vec![(0, 2), (1, 2), (2, 2), (3, 2)]);
    assert_eq!(offsets(TetrominoType::I, Rotation::Left), vec![(1, 0), (1, 1), (1, 2), (1, 3)]);
}

#[test]
fn square_is_the_same_in_every_rotation() {
    for rot in ROTATIONS {
        assert_eq!(offsets(TetrominoType::O, rot), vec![(1, 0), (2, 0), (1, 1), (2, 1)]);
    }
}

#[test]
fn spawn_shapes_of_the_other_kinds() {
    assert_eq!(offsets(TetrominoType::J, Rotation::Spawn), vec![(0, 0), (0, 1), (1, 1), (2, 1)]);
    assert_eq!(offsets(TetrominoType::L, Rotation::Spawn), vec![(2, 0), (0, 1), (1, 1), (2, 1)]);
    assert_eq!(offsets(TetrominoType::S, Rotation::Spawn), vec![(1, 0), (2, 0), (0, 1), (1, 1)]);
    assert_eq!(offsets(TetrominoType::T, Rotation::Spawn), vec![(1, 0), (0, 1), (1, 1), (2, 1)]);
    assert_eq!(offsets(TetrominoType::Z, Rotation::Spawn), vec![(0, 0), (1, 0), (1, 1), (2, 1)]);
}

#[test]
fn turned_shapes_of_the_other_kinds() {
    assert_eq!(offsets(TetrominoType::J, Rotation::Right), vec![(1, 0), (1, 1), (1, 2), (2, 0)]);
    assert_eq!(offsets(TetrominoType::J, Rotation::Rot2), vec![(0, 1), (1, 1), (2, 1), (2, 2)]);
    assert_eq!(offsets(TetrominoType::J, Rotation::Left), vec![(1, 0), (1, 1), (0, 2), (1, 2)]);
    assert_eq!(offsets(TetrominoType::L, Rotation::Right), vec![(1, 0), (1, 1), (1, 2), (2, 2)]);
    assert_eq!(offsets(TetrominoType::L, Rotation::Rot2), vec![(0, 1), (1, 1), (2, 1), (0, 2)]);
    assert_eq!(offsets(TetrominoType::L, Rotation::Left), vec![(0, 0), (1, 0), (1, 1), (1, 2)]);
    assert_eq!(offsets(TetrominoType::S, Rotation::Right), vec![(1, 0), (1, 1), (2, 1), (2, 2)]);
    assert_eq!(offsets(TetrominoType::S, Rotation::Rot2), vec![(1, 1), (2, 1), (0, 2), (1, 2)]);
    assert_eq!(offsets(TetrominoType::S, Rotation::Left), vec![(0, 0), (0, 1), (1, 1), (1, 2)]);
    assert_eq!(offsets(TetrominoType::T, Rotation::Right), vec![(1, 0), (1, 1), (2, 1), (1, 2)]);
    assert_eq!(offsets(TetrominoType::T, Rotation::Rot2), vec![(0, 1), (1, 1), (2, 1), (1, 2)]);
    assert_eq!(offsets(TetrominoType::T, Rotation::Left), vec![(1, 0), (0, 1), (1, 1), (1, 2)]);
    assert_eq!(offsets(TetrominoType::Z, Rotation::Right), vec![(2, 0), (1, 1), (2, 1), (1, 2)]);
    assert_eq!(offsets(TetrominoType::Z, Rotation::Rot2), vec![(0, 1), (1, 1), (1, 2), (2, 2)]);
    assert_eq!(offsets(TetrominoType::Z, Rotation::Left), vec![(1, 0), (0, 1), (1, 1), (0, 2)]);
}

#[test]
fn every_shape_has_four_distinct_cells() {
    for kind in KINDS {
        for rot in ROTATIONS {
            let cells = offsets(kind, rot);
            assert_eq!(cells.len(), 4);
            for i in 0..4 {
                for j in (i + 1)..4 {
                    assert_ne!(cells[i], cells[j]);
                }
            }
        }
    }
}

#[test]
fn every_shape_hangs_together_along_edges() {
    for kind in KINDS {
        for rot in ROTATIONS {
            let cells = offsets(kind, rot);
            let mut reached = vec![cells[0]];
            let mut grew = true;
            while grew {
                grew = false;
                for cell in &cells {
                    if reached.contains(cell) {
                        continue;
                    }
                    let touches = reached
                        .iter()
                        .any(|r| (r.0 - cell.0).abs() + (r.1 - cell.1).abs() == 1);
                    if touches {
                        reached.push(*cell);
                        grew = true;
                    }
                }
            }
            assert_eq!(reached.len(), 4);
        }
    }
}

#[test]
fn every_shape_stays_inside_its_box() {
    for kind in KINDS {
        for rot in ROTATIONS {
            for (x, y) in offsets(kind, rot) {
                assert!(0 <= x && x <= 3);
                assert!(0 <= y && y <= 3);
            }
        }
    }
}

#[test]
fn ghost_of_a_piece_has_its_cells_and_place() {
    let piece = Tetromino::new(Point::new(5, 9), TetrominoType::S, Rotation::Right);
    let ghost = Tetromino::new_ghost(&piece);
    assert_eq!(ghost.tetromino_type(), TetrominoType::Shadow);
    assert_eq!(ghost.origin(), piece.origin());
    assert_eq!(ghost.minos(), piece.minos());
    assert_eq!(ghost.rot(), piece.rot());
}
