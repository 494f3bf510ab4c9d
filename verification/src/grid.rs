//! The playing field as a grid of cells, and what pieces do to it: covering
//! cells, fitting into free ones, and falling to rest.

use crate::tetromino::{boxed, points_view, Piece, Point, Tetromino, TetrominoType, MINOS};
use vstd::prelude::*;

verus! {

/// Number of columns.
pub const WIDTH: usize = 10;

/// Number of rows. Row 0 is the top.
pub const HEIGHT: usize = 22;

/// The playing field: `HEIGHT` rows of `WIDTH` cells, each empty or tagged.
pub type Field = [[Option<TetrominoType>; WIDTH]; HEIGHT];

/// The playing field as a sequence of rows.
pub type Grid = Seq<Seq<Option<TetrominoType>>>;

/// The grid that a field stands for.
pub open spec fn grid_of(field: Field) -> Grid {
    Seq::new(HEIGHT as nat, |y: int| field[y]@)
}

/// The grid has `HEIGHT` rows of `WIDTH` cells.
pub open spec fn well_shaped(g: Grid) -> bool {
    &&& g.len() == HEIGHT
    &&& forall|y: int| 0 <= y < HEIGHT ==> (#[trigger] g[y]).len() == WIDTH
}

/// The cell `(x, y)` lies on the grid.
pub open spec fn in_bounds(x: int, y: int) -> bool {
    0 <= x < WIDTH && 0 <= y < HEIGHT
}

/// The grid whose cell `(x, y)` is `f(x, y)`.
pub open spec fn tabulate(f: spec_fn(int, int) -> Option<TetrominoType>) -> Grid {
    Seq::new(HEIGHT as nat, |y: int| Seq::new(WIDTH as nat, |x: int| f(x, y)))
}

/// The grid with no cell occupied.
pub open spec fn blank() -> Grid {
    tabulate(|x: int, y: int| None)
}

/// The grid with one cell replaced.
pub open spec fn with_cell(g: Grid, x: int, y: int, tag: Option<TetrominoType>) -> Grid {
    g.update(y, g[y].update(x, tag))
}

/// A cell that holds nothing solid: it is empty or shows only the landing
/// preview.
pub open spec fn vacant(cell: Option<TetrominoType>) -> bool {
    cell is None || cell == Some(TetrominoType::Shadow)
}

/// The grid with the first `n` cells of `p` set to `tag`.
pub open spec fn stamp(g: Grid, p: Piece, n: int, tag: Option<TetrominoType>) -> Grid {
    tabulate(
        |x: int, y: int|
            if p.covers_with(n, x, y) {
                tag
            } else {
                g[y][x]
            },
    )
}

/// The grid with the first `n` cells of the landing preview `shadow` of the
/// piece `p` marked, but for those that `p` itself covers.
pub open spec fn shade_first(g: Grid, shadow: Piece, p: Piece, n: int) -> Grid {
    tabulate(
        |x: int, y: int|
            if shadow.covers_with(n, x, y) && !p.covers(x, y) {
                Some(TetrominoType::Shadow)
            } else {
                g[y][x]
            },
    )
}

/// The grid with the landing preview `shadow` of the piece `p` marked: every
/// cell of `shadow` that `p` itself does not cover.
pub open spec fn shade(g: Grid, shadow: Piece, p: Piece) -> Grid {
    shade_first(g, shadow, p, MINOS as int)
}

/// The grid without the preview marker on the first `n` cells of `shadow`.
pub open spec fn unshade_first(g: Grid, shadow: Piece, n: int) -> Grid {
    tabulate(
        |x: int, y: int|
            if shadow.covers_with(n, x, y) && g[y][x] == Some(TetrominoType::Shadow) {
                None
            } else {
                g[y][x]
            },
    )
}

/// The grid without the cells of `shadow` that show the preview marker.
pub open spec fn unshade(g: Grid, shadow: Piece) -> Grid {
    unshade_first(g, shadow, MINOS as int)
}

/// The grid without any preview marker.
pub open spec fn strip(g: Grid) -> Grid {
    tabulate(
        |x: int, y: int|
            if g[y][x] == Some(TetrominoType::Shadow) {
                None
            } else {
                g[y][x]
            },
    )
}

/// The settled geometry: the grid without the active piece `p` and without
/// any preview marker.
pub open spec fn settled(g: Grid, p: Piece) -> Grid {
    stamp(strip(g), p, MINOS as int, None)
}

/// The cell `(x, y)` is on the grid and holds nothing solid.
pub open spec fn open_at(g: Grid, x: int, y: int) -> bool {
    in_bounds(x, y) && vacant(g[y][x])
}

/// Every cell of `q` is on the grid and holds nothing solid.
pub open spec fn clear(g: Grid, q: Piece) -> bool {
    &&& open_at(g, q.cell(0).x, q.cell(0).y)
    &&& open_at(g, q.cell(1).x, q.cell(1).y)
    &&& open_at(g, q.cell(2).x, q.cell(2).y)
    &&& open_at(g, q.cell(3).x, q.cell(3).y)
}

/// The cell `(x, y)` is a legal destination for the piece `p`: it is on the
/// grid, and it holds nothing solid or is one of the cells that `p` covers
/// now.
pub open spec fn admits(g: Grid, p: Piece, x: int, y: int) -> bool {
    in_bounds(x, y) && (vacant(g[y][x]) || p.covers(x, y))
}

/// The piece `p`, drawn on `g`, may take the place `q`: every cell of `q` is
/// a legal destination for `p`.
pub open spec fn fits(g: Grid, p: Piece, q: Piece) -> bool {
    &&& admits(g, p, q.cell(0).x, q.cell(0).y)
    &&& admits(g, p, q.cell(1).x, q.cell(1).y)
    &&& admits(g, p, q.cell(2).x, q.cell(2).y)
    &&& admits(g, p, q.cell(3).x, q.cell(3).y)
}

/// Every cell of `p` lies on the grid.
pub open spec fn inside(p: Piece) -> bool {
    &&& in_bounds(p.cell(0).x, p.cell(0).y)
    &&& in_bounds(p.cell(1).x, p.cell(1).y)
    &&& in_bounds(p.cell(2).x, p.cell(2).y)
    &&& in_bounds(p.cell(3).x, p.cell(3).y)
}

/// The place from which cells can be computed without overflow: the piece
/// has its four cells in a box at its origin, and the origin is within a
/// few cells of the grid.
pub open spec fn near(p: Piece) -> bool {
    &&& boxed(p)
    &&& -8 <= p.origin.x <= WIDTH + 8
    &&& -8 <= p.origin.y <= HEIGHT + 8
}

/// How far the piece `p`, drawn on `g` or not, falls: the number of rows it
/// can go down one after the other, given that it can go down `k` rows.
pub open spec fn fall(g: Grid, p: Piece, k: int) -> int
    decreases HEIGHT - k,
{
    if 0 <= k < HEIGHT && fits(g, p, p.shifted(0, k + 1)) {
        fall(g, p, k + 1)
    } else {
        k
    }
}

/// The landing preview of the piece `p`, drawn on `g` or not: the lowest
/// place that `p` reaches by going straight down.
pub open spec fn landing(g: Grid, p: Piece) -> Piece {
    p.shifted(0, fall(g, p, 0)).as_ghost()
}

/// Two grids of the right shape with the same cells are the same grid.
pub proof fn lemma_grid_ext(a: Grid, b: Grid)
    requires
        well_shaped(a),
        well_shaped(b),
        forall|x: int, y: int| in_bounds(x, y) ==> a[y][x] == b[y][x],
    ensures
        a == b,
{
    assert forall|y: int| 0 <= y < HEIGHT implies a[y] == b[y] by {
        assert forall|x: int| 0 <= x < WIDTH implies a[y][x] == b[y][x] by {
            assert(in_bounds(x, y));
        }
        assert(a[y] =~= b[y]);
    }
    assert(a =~= b);
}

/// Reads one cell.
pub fn get(field: &Field, x: usize, y: usize) -> (cell: Option<TetrominoType>)
    requires
        in_bounds(x as int, y as int),
    ensures
        cell == grid_of(*field)[y as int][x as int],
{
    field[y][x]
}

/// Writes one cell.
pub fn put(field: &mut Field, x: usize, y: usize, tag: Option<TetrominoType>)
    requires
        in_bounds(x as int, y as int),
    ensures
        grid_of(*final(field)) == with_cell(grid_of(*old(field)), x as int, y as int, tag),
{
    field[y][x] = tag;
    proof {
        lemma_grid_ext(
            grid_of(*field),
            with_cell(grid_of(*old(field)), x as int, y as int, tag),
        );
    }
}

/// A field always stands for a grid of the right shape.
pub proof fn lemma_grid_of_well_shaped(field: Field)
    ensures
        well_shaped(grid_of(field)),
{
}

/// Setting the first `i + 1` cells of a piece is setting the first `i` and
/// then cell `i`.
pub proof fn lemma_stamp_step(g: Grid, p: Piece, i: int, tag: Option<TetrominoType>)
    requires
        well_shaped(g),
        0 <= i < MINOS,
        in_bounds(p.cell(i).x, p.cell(i).y),
    ensures
        stamp(g, p, i + 1, tag) == with_cell(stamp(g, p, i, tag), p.cell(i).x, p.cell(i).y, tag),
{
    lemma_grid_ext(
        stamp(g, p, i + 1, tag),
        with_cell(stamp(g, p, i, tag), p.cell(i).x, p.cell(i).y, tag),
    );
}

/// Setting none of the cells of a piece leaves the grid as it is.
pub proof fn lemma_stamp_none(g: Grid, p: Piece, tag: Option<TetrominoType>)
    requires
        well_shaped(g),
    ensures
        stamp(g, p, 0, tag) == g,
{
    lemma_grid_ext(stamp(g, p, 0, tag), g);
}

/// A place fits a piece exactly when it is free of the settled geometry:
/// neither the piece itself nor any preview marker stands in the way.
pub proof fn lemma_fits_settled(g: Grid, p: Piece, q: Piece)
    requires
        well_shaped(g),
    ensures
        fits(g, p, q) == clear(settled(g, p), q),
        fits(g, p, q) == fits(settled(g, p), p, q),
{
}

/// A place fits exactly when each of its four cells is a legal destination.
pub proof fn lemma_fits_cell_by_cell(g: Grid, p: Piece, q: Piece)
    ensures
        fits(g, p, q) <==> forall|k: int|
            0 <= k < MINOS ==> admits(g, p, (#[trigger] q.cell(k)).x, q.cell(k).y),
{
    if fits(g, p, q) {
        assert forall|k: int| 0 <= k < MINOS implies admits(
            g,
            p,
            (#[trigger] q.cell(k)).x,
            q.cell(k).y,
        ) by {
            assert(k == 0 || k == 1 || k == 2 || k == 3);
        }
    }
    if forall|k: int| 0 <= k < MINOS ==> admits(g, p, (#[trigger] q.cell(k)).x, q.cell(k).y) {
        assert(admits(g, p, q.cell(0).x, q.cell(0).y));
        assert(admits(g, p, q.cell(1).x, q.cell(1).y));
        assert(admits(g, p, q.cell(2).x, q.cell(2).y));
        assert(admits(g, p, q.cell(3).x, q.cell(3).y));
    }
}

/// A place is free exactly when each of its four cells is on the grid and
/// holds nothing solid.
pub proof fn lemma_clear_cell_by_cell(g: Grid, q: Piece)
    ensures
        clear(g, q) <==> forall|k: int|
            0 <= k < MINOS ==> open_at(g, (#[trigger] q.cell(k)).x, q.cell(k).y),
{
    if clear(g, q) {
        assert forall|k: int| 0 <= k < MINOS implies open_at(
            g,
            (#[trigger] q.cell(k)).x,
            q.cell(k).y,
        ) by {
            assert(k == 0 || k == 1 || k == 2 || k == 3);
        }
    }
    if forall|k: int| 0 <= k < MINOS ==> open_at(g, (#[trigger] q.cell(k)).x, q.cell(k).y) {
        assert(open_at(g, q.cell(0).x, q.cell(0).y));
        assert(open_at(g, q.cell(1).x, q.cell(1).y));
        assert(open_at(g, q.cell(2).x, q.cell(2).y));
        assert(open_at(g, q.cell(3).x, q.cell(3).y));
    }
}

/// Only the cells of a place count: two places with the same cells fit the
/// same pieces.
pub proof fn lemma_same_cells(g: Grid, p: Piece, a: Piece, b: Piece)
    requires
        a.origin == b.origin,
        a.minos == b.minos,
    ensures
        fits(g, p, a) == fits(g, p, b),
        clear(g, a) == clear(g, b),
        inside(a) == inside(b),
{
}

/// How far a piece falls depends on the settled geometry alone.
pub proof fn lemma_fall_same(g1: Grid, g2: Grid, p: Piece, k: int)
    requires
        well_shaped(g1),
        well_shaped(g2),
        settled(g1, p) == settled(g2, p),
    ensures
        fall(g1, p, k) == fall(g2, p, k),
    decreases HEIGHT - k,
{
    lemma_fits_settled(g1, p, p.shifted(0, k + 1));
    lemma_fits_settled(g2, p, p.shifted(0, k + 1));
    if 0 <= k < HEIGHT && fits(g1, p, p.shifted(0, k + 1)) {
        lemma_fall_same(g1, g2, p, k + 1);
    }
}

/// What `fall` counts: every row down to the count is free, and the row
/// after it is not.
pub proof fn lemma_fall_stops(g: Grid, p: Piece, k: int)
    requires
        inside(p),
        boxed(p),
        0 <= k,
        k == 0 || fits(g, p, p.shifted(0, k)),
    ensures
        k <= fall(g, p, k) < HEIGHT,
        fall(g, p, k) == 0 || fits(g, p, p.shifted(0, fall(g, p, k))),
        !fits(g, p, p.shifted(0, fall(g, p, k) + 1)),
        forall|j: int| k < j <= fall(g, p, k) ==> fits(g, p, #[trigger] p.shifted(0, j)),
    decreases HEIGHT - k,
{
    if 0 <= k < HEIGHT && fits(g, p, p.shifted(0, k + 1)) {
        lemma_fall_stops(g, p, k + 1);
    }
}

/// The landing preview is the lowest place the piece reaches by going
/// straight down: it is on the grid in the columns of the piece, at or
/// below it; the piece fits there and in every place on the way, and goes
/// no further.
pub proof fn lemma_landing_is_lowest(g: Grid, p: Piece)
    requires
        well_shaped(g),
        inside(p),
        boxed(p),
    ensures
        landing(g, p) == p.shifted(0, fall(g, p, 0)).as_ghost(),
        0 <= fall(g, p, 0) < HEIGHT,
        inside(landing(g, p)),
        fits(g, p, landing(g, p)),
        !fits(g, p, landing(g, p).shifted(0, 1)),
        forall|j: int| 0 <= j <= fall(g, p, 0) ==> fits(g, p, #[trigger] p.shifted(0, j)),
{
    lemma_fall_stops(g, p, 0);
    assert(p.shifted(0, 0) == p);
    assert(fits(g, p, p));
    let k = fall(g, p, 0);
    lemma_same_cells(g, p, landing(g, p).shifted(0, 1), p.shifted(0, k + 1));
}

/// Taking the preview marker off the first `i + 1` cells of a preview is
/// taking it off the first `i` and then off cell `i`.
pub proof fn lemma_unshade_step(g: Grid, shadow: Piece, i: int)
    requires
        well_shaped(g),
        0 <= i < MINOS,
        in_bounds(shadow.cell(i).x, shadow.cell(i).y),
    ensures
        unshade_first(g, shadow, 0) == g,
        unshade_first(g, shadow, i + 1) == {
            let before = unshade_first(g, shadow, i);
            let at = shadow.cell(i);
            if before[at.y][at.x] == Some(TetrominoType::Shadow) {
                with_cell(before, at.x, at.y, None)
            } else {
                before
            }
        },
{
    let before = unshade_first(g, shadow, i);
    let at = shadow.cell(i);
    lemma_grid_ext(unshade_first(g, shadow, 0), g);
    if before[at.y][at.x] == Some(TetrominoType::Shadow) {
        lemma_grid_ext(unshade_first(g, shadow, i + 1), with_cell(before, at.x, at.y, None));
    } else {
        lemma_grid_ext(unshade_first(g, shadow, i + 1), before);
    }
}

/// Marking the first `i + 1` cells of a preview is marking the first `i`
/// and then cell `i`, unless the piece covers it.
pub proof fn lemma_shade_step(g: Grid, shadow: Piece, p: Piece, i: int)
    requires
        well_shaped(g),
        0 <= i < MINOS,
        in_bounds(shadow.cell(i).x, shadow.cell(i).y),
    ensures
        shade_first(g, shadow, p, 0) == g,
        shade_first(g, shadow, p, i + 1) == {
            let before = shade_first(g, shadow, p, i);
            let at = shadow.cell(i);
            if p.covers(at.x, at.y) {
                before
            } else {
                with_cell(before, at.x, at.y, Some(TetrominoType::Shadow))
            }
        },
{
    let before = shade_first(g, shadow, p, i);
    let at = shadow.cell(i);
    lemma_grid_ext(shade_first(g, shadow, p, 0), g);
    if p.covers(at.x, at.y) {
        lemma_grid_ext(shade_first(g, shadow, p, i + 1), before);
    } else {
        lemma_grid_ext(
            shade_first(g, shadow, p, i + 1),
            with_cell(before, at.x, at.y, Some(TetrominoType::Shadow)),
        );
    }
}

/// Tells whether a cell holds nothing solid.
pub fn is_vacant(cell: Option<TetrominoType>) -> (b: bool)
    ensures
        b == vacant(cell),
{
    match cell {
        None => true,
        Some(TetrominoType::Shadow) => true,
        _ => false,
    }
}

/// Tells whether a position is on the grid and holds nothing solid.
pub fn is_open(field: &Field, pos: Point) -> (b: bool)
    ensures
        b == open_at(grid_of(*field), pos@.x, pos@.y),
{
    if pos.x < 0 || pos.y < 0 || (pos.x as usize) >= WIDTH || (pos.y as usize) >= HEIGHT {
        false
    } else {
        is_vacant(get(field, pos.x as usize, pos.y as usize))
    }
}

/// Sets the four cells of a piece to `tag`.
pub fn paint(field: &mut Field, piece: &Tetromino, tag: Option<TetrominoType>)
    requires
        boxed(piece@),
        inside(piece@),
    ensures
        grid_of(*final(field)) == stamp(grid_of(*old(field)), piece@, MINOS as int, tag),
{
    let ghost before = grid_of(*field);
    proof {
        lemma_stamp_none(before, piece@, tag);
    }
    let mut i: usize = 0;
    while i < MINOS
        invariant
            i <= MINOS,
            boxed(piece@),
            inside(piece@),
            well_shaped(before),
            grid_of(*field) == stamp(before, piece@, i as int, tag),
        decreases MINOS - i,
    {
        let pos = cell_of(piece, i);
        put(field, pos.x as usize, pos.y as usize, tag);
        proof {
            lemma_stamp_step(before, piece@, i as int, tag);
        }
        i += 1;
    }
}

/// A row with no cell occupied.
pub open spec fn blank_row() -> Seq<Option<TetrominoType>> {
    Seq::new(WIDTH as nat, |x: int| None)
}

/// Makes a row with no cell occupied.
pub fn empty_row() -> (row: [Option<TetrominoType>; WIDTH])
    ensures
        row@ == blank_row(),
{
    let row = [None, None, None, None, None, None, None, None, None, None];
    assert(row@ =~= blank_row());
    row
}

/// Reads one row.
pub fn get_row(field: &Field, y: usize) -> (row: [Option<TetrominoType>; WIDTH])
    requires
        y < HEIGHT,
    ensures
        row@ == grid_of(*field)[y as int],
{
    field[y]
}

/// Writes one row.
pub fn set_row(field: &mut Field, y: usize, row: [Option<TetrominoType>; WIDTH])
    requires
        y < HEIGHT,
    ensures
        grid_of(*final(field)) == grid_of(*old(field)).update(y as int, row@),
{
    field[y] = row;
    assert(grid_of(*field) =~= grid_of(*old(field)).update(y as int, row@));
}

/// Makes a field with no cell occupied.
pub fn blank_field() -> (field: Field)
    ensures
        grid_of(field) == blank(),
{
    let row = empty_row();
    let field = [row;HEIGHT];
    proof {
        lemma_grid_ext(grid_of(field), blank());
    }
    field
}

/// The grid without the preview markers that come before the cell
/// `(upto_x, upto_y)`, row by row.
pub open spec fn strip_before(g: Grid, upto_x: int, upto_y: int) -> Grid {
    tabulate(
        |x: int, y: int|
            if (y < upto_y || (y == upto_y && x < upto_x)) && g[y][x] == Some(
                TetrominoType::Shadow,
            ) {
                None
            } else {
                g[y][x]
            },
    )
}

/// Takes every preview marker off a field.
pub fn strip_field(field: &mut Field)
    ensures
        grid_of(*final(field)) == strip(grid_of(*old(field))),
{
    let ghost before = grid_of(*field);
    proof {
        lemma_grid_of_well_shaped(*field);
        lemma_grid_ext(strip_before(before, 0, 0), before);
    }
    let mut y: usize = 0;
    while y < HEIGHT
        invariant
            y <= HEIGHT,
            well_shaped(before),
            grid_of(*field) == strip_before(before, 0, y as int),
        decreases HEIGHT - y,
    {
        let mut x: usize = 0;
        while x < WIDTH
            invariant
                x <= WIDTH,
                y < HEIGHT,
                well_shaped(before),
                grid_of(*field) == strip_before(before, x as int, y as int),
            decreases WIDTH - x,
        {
            if let Some(TetrominoType::Shadow) = get(field, x, y) {
                put(field, x, y, None);
            }
            proof {
                lemma_grid_of_well_shaped(*field);
                lemma_grid_ext(grid_of(*field), strip_before(before, x + 1, y as int));
            }
            x += 1;
        }
        proof {
            lemma_grid_ext(
                strip_before(before, WIDTH as int, y as int),
                strip_before(before, 0, y + 1),
            );
        }
        y += 1;
    }
    proof {
        lemma_grid_ext(strip_before(before, 0, HEIGHT as int), strip(before));
    }
}

/// The position of cell `i` of a piece.
pub fn cell_of(piece: &Tetromino, i: usize) -> (pos: Point)
    requires
        i < MINOS,
        boxed(piece@),
        piece@.origin.x + 3 <= isize::MAX,
        piece@.origin.y + 3 <= isize::MAX,
    ensures
        pos@ == piece@.cell(i as int),
{
    let minos = piece.minos();
    let origin = piece.origin();
    assert(points_view(minos)[i as int] == minos[i as int]@);
    origin + minos[i]
}

} // verus!
