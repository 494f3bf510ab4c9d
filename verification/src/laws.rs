//! What holds of every game: laws of the board, stated over its states and
//! proved from the definitions of its moves.

use crate::bag::{is_full_bag, lemma_full_bag_holds_every_kind, lemma_rest_is_bag};
use crate::grid::{
    fall, fits, in_bounds, inside, landing, lemma_fits_settled, lemma_grid_ext,
    lemma_landing_is_lowest, settled, strip, vacant, well_shaped, Grid, HEIGHT, WIDTH,
};
use crate::srs;
use crate::srs::Direction;
use crate::state::{
    clears, collapsed, count_lines, is_line, spans, spawn_pos, top_line, BoardView, HARD_DROP,
    LINES_PER_LEVEL,
};
use crate::tetromino::{Piece, Rotation, TetrominoType, MINOS, TYPES};
use crate::upkeep::{
    descended, lemma_at_rest, lemma_descent_ends, lemma_descent_goes_on, lemma_descent_starts,
    lemma_enter_self, lemma_enter_wf, lemma_fresh_is_inside, lemma_in_play_cells, lemma_lock_wf,
    lemma_replace, lemma_settled_is_bare,
};
use vstd::prelude::*;

verus! {

/// The landing preview is the lowest legal resting place straight below the
/// active piece: it stands in the columns of the piece, at or below it; the
/// piece may take its place and every place on the way down to it, and may
/// not go one row further.
pub proof fn lemma_shadow_is_lowest(s: BoardView)
    requires
        s.wf(),
        !s.topped_out,
    ensures
        s.shadow == s.curr.shifted(0, s.drop_height()).as_ghost(),
        0 <= s.drop_height() < HEIGHT,
        inside(s.shadow),
        forall|k: int|
            0 <= k <= s.drop_height() ==> fits(s.grid, s.curr, #[trigger] s.curr.shifted(0, k)),
        !fits(s.grid, s.curr, s.shadow.shifted(0, 1)),
{
    let base = s.base();
    lemma_in_play_cells(s);
    lemma_settled_is_bare(s.grid, s.curr);
    lemma_landing_is_lowest(base, s.curr);
    assert forall|k: int| 0 <= k <= s.drop_height() implies fits(
        s.grid,
        s.curr,
        #[trigger] s.curr.shifted(0, k),
    ) by {
        lemma_fits_settled(s.grid, s.curr, s.curr.shifted(0, k));
        lemma_fits_settled(base, s.curr, s.curr.shifted(0, k));
    }
    lemma_fits_settled(s.grid, s.curr, s.shadow.shifted(0, 1));
    lemma_fits_settled(base, s.curr, s.shadow.shifted(0, 1));
}

/// The board shows the landing preview exactly on the cells of the preview
/// that the active piece does not cover, and those cells hold nothing else.
pub proof fn lemma_shadow_is_shown(s: BoardView, x: int, y: int)
    requires
        s.wf(),
        !s.topped_out,
        in_bounds(x, y),
    ensures
        s.grid[y][x] == Some(TetrominoType::Shadow) <==> s.shadow.covers(x, y) && !s.curr.covers(
            x,
            y,
        ),
        s.curr.covers(x, y) ==> s.grid[y][x] == Some(s.curr.kind),
        s.shadow.covers(x, y) || s.curr.covers(x, y) ==> s.base()[y][x] is None,
        !s.shadow.covers(x, y) && !s.curr.covers(x, y) ==> s.grid[y][x] == s.base()[y][x],
{
    lemma_in_play_cells(s);
    lemma_settled_is_bare(s.grid, s.curr);
}

/// The landing preview never stands in the way: whether a place fits the
/// active piece, and whether a row is complete, is the same with the preview
/// markers on the grid and without them.
pub proof fn lemma_shadow_never_interferes(g: Grid, p: Piece, q: Piece, y: int)
    requires
        well_shaped(g),
        0 <= y < HEIGHT,
    ensures
        fits(g, p, q) == fits(strip(g), p, q),
        is_line(g, y) == is_line(strip(g), y),
        clears(g, p, y) == clears(strip(g), p, y),
{
    if is_line(g, y) {
        assert forall|x: int| 0 <= x < WIDTH implies !vacant(#[trigger] strip(g)[y][x]) by {
            assert(!vacant(g[y][x]));
        }
    }
    if is_line(strip(g), y) {
        assert forall|x: int| 0 <= x < WIDTH implies !vacant(#[trigger] g[y][x]) by {
            assert(!vacant(strip(g)[y][x]));
        }
    }
}

/// Once the game is over, no move changes the board.
pub proof fn lemma_game_over_is_final(
    s: BoardView,
    refill: Seq<TetrominoType>,
    dir: Direction,
    dx: int,
    dy: int,
)
    requires
        s.topped_out,
    ensures
        s.tick(refill) == s,
        s.hard_drop(refill) == s,
        s.swap_hold(refill) == s,
        s.shift(dx, dy) == s,
        s.turn(dir) == s,
{
}

/// A piece that enters on a cell that is occupied ends the game; one that
/// finds its four cells empty does not.
pub proof fn lemma_blocked_spawn_tops_out(s: BoardView, base: Grid, refill: Seq<TetrominoType>)
    requires
        !s.topped_out,
    ensures
        ({
            let p = Piece::fresh(spawn_pos(), s.next.last(), Rotation::Spawn);
            s.spawn(base, refill).topped_out <==> {
                ||| base[p.cell(0).y][p.cell(0).x] is Some
                ||| base[p.cell(1).y][p.cell(1).x] is Some
                ||| base[p.cell(2).y][p.cell(2).x] is Some
                ||| base[p.cell(3).y][p.cell(3).x] is Some
            }
        }),
{
}

/// A rotation that fails, like a move that is not possible, leaves the
/// board as it was.
pub proof fn lemma_failed_move_changes_nothing(s: BoardView, dir: Direction, dx: int, dy: int)
    ensures
        srs::rotation(s.grid, s.curr, dir) is None ==> s.turn(dir) == s,
        !fits(s.grid, s.curr, s.curr.shifted(dx, dy)) ==> s.shift(dx, dy) == s,
{
}

/// Four turns in the same direction, none of them kicked, lead back to the
/// board they started from: the piece in its rotation state and at its
/// origin, the landing preview, and every cell of the grid.
pub proof fn lemma_four_turns_lead_back(s: BoardView, dir: Direction)
    requires
        s.wf(),
        !s.topped_out,
        srs::rotation(s.grid, s.curr, dir) == Some(srs::turned(s.curr, dir)),
        srs::rotation(s.turn(dir).grid, s.turn(dir).curr, dir) == Some(
            srs::turned(s.turn(dir).curr, dir),
        ),
        srs::rotation(s.turn(dir).turn(dir).grid, s.turn(dir).turn(dir).curr, dir) == Some(
            srs::turned(s.turn(dir).turn(dir).curr, dir),
        ),
        srs::rotation(
            s.turn(dir).turn(dir).turn(dir).grid,
            s.turn(dir).turn(dir).turn(dir).curr,
            dir,
        ) == Some(srs::turned(s.turn(dir).turn(dir).turn(dir).curr, dir)),
    ensures
        s.turn(dir).turn(dir).turn(dir).turn(dir) == s,
{
    let s1 = s.turn(dir);
    lemma_turn_keeps_the_base(s, dir);
    let s2 = s1.turn(dir);
    lemma_turn_keeps_the_base(s1, dir);
    let s3 = s2.turn(dir);
    lemma_turn_keeps_the_base(s2, dir);
    lemma_turn_keeps_the_base(s3, dir);
    srs::lemma_four_turns_in_place(s.curr, dir);
    lemma_enter_self(s);
    assert(s3.turn(dir) == s3.enter(s.base(), s.curr));
}

/// A turn that succeeds moves the active piece and nothing else: the
/// settled geometry, the hold slot, the draw sequence and the counters stay
/// as they are, and the board stays well-formed.
pub proof fn lemma_turn_keeps_the_base(s: BoardView, dir: Direction)
    requires
        s.wf(),
        !s.topped_out,
    ensures
        s.turn(dir).wf(),
        !s.turn(dir).topped_out,
        s.turn(dir).base() == s.base(),
        s.turn(dir).hold == s.hold,
        s.turn(dir).hold_locked == s.hold_locked,
        s.turn(dir).next == s.next,
        srs::rotation(s.grid, s.curr, dir) matches Some(q) ==> s.turn(dir) == s.enter(s.base(), q),
{
    srs::lemma_rotation_fits(s.grid, s.curr, dir);
    match srs::rotation(s.grid, s.curr, dir) {
        Some(q) => {
            lemma_replace(s, q);
        },
        None => {},
    }
}

/// A move that succeeds moves the active piece and nothing else: the
/// settled geometry, the hold slot, the draw sequence and the counters stay
/// as they are, and the board stays well-formed.
pub proof fn lemma_shift_keeps_the_base(s: BoardView, dx: int, dy: int)
    requires
        s.wf(),
        !s.topped_out,
    ensures
        s.shift(dx, dy).wf(),
        !s.shift(dx, dy).topped_out,
        s.shift(dx, dy).base() == s.base(),
        s.shift(dx, dy).hold == s.hold,
        s.shift(dx, dy).hold_locked == s.hold_locked,
        s.shift(dx, dy).next == s.next,
        s.can_shift(dx, dy) ==> s.shift(dx, dy).curr == s.curr.shifted(dx, dy),
{
    if s.can_shift(dx, dy) {
        lemma_replace(s, s.curr.shifted(dx, dy));
    }
}

/// A piece that has gone down until it cannot go further, and is then
/// ticked once more, comes to rest: the next piece of the draw sequence
/// enters at the spawn origin in spawn rotation, the hold slot may be used
/// again, and the board is well-formed.
pub proof fn lemma_tick_at_rest_spawns(s: BoardView, refill: Seq<TetrominoType>)
    requires
        s.wf(),
        !s.topped_out,
        !s.can_shift(0, 1),
        is_full_bag(refill),
    ensures
        s.tick(refill) == s.lock(refill),
        s.tick(refill).curr == Piece::fresh(spawn_pos(), s.next.last(), Rotation::Spawn),
        s.tick(refill).curr.origin == spawn_pos(),
        !s.tick(refill).hold_locked,
        s.tick(refill).wf(),
        s.drop_height() == 0,
{
    lemma_lock_wf(s, refill);
    lemma_at_rest(s);
}

/// A piece that comes to rest without completing a row stays where it is,
/// as part of the settled geometry.
pub proof fn lemma_rest_keeps_the_piece(s: BoardView, x: int, y: int)
    requires
        s.wf(),
        !s.topped_out,
        !s.can_shift(0, 1),
        count_lines(strip(s.grid), s.curr, HEIGHT as int) == 0,
        in_bounds(x, y),
    ensures
        s.settle().grid == s.grid,
        s.curr.covers(x, y) ==> s.settle().grid[y][x] == Some(s.curr.kind),
        s.settle().score == s.score,
        s.settle().cleared == s.cleared,
{
    lemma_at_rest(s);
    lemma_in_play_cells(s);
}

/// A piece that is ticked at rest without completing a row becomes settled
/// geometry as it stands: its cells keep its kind, every other cell keeps
/// what it held, nothing is scored or counted, and the next piece enters on
/// cells that were empty.
pub proof fn lemma_tick_at_rest_settles_the_piece(
    s: BoardView,
    refill: Seq<TetrominoType>,
    x: int,
    y: int,
)
    requires
        s.wf(),
        !s.topped_out,
        !s.can_shift(0, 1),
        count_lines(s.grid, s.curr, HEIGHT as int) == 0,
        is_full_bag(refill),
        in_bounds(x, y),
    ensures
        s.tick(refill).score == s.score,
        s.tick(refill).cleared == s.cleared,
        s.tick(refill).level == s.level,
        s.tick(refill).curr == Piece::fresh(spawn_pos(), s.next.last(), Rotation::Spawn),
        !s.tick(refill).hold_locked,
        s.curr.covers(x, y) ==> s.grid[y][x] == Some(s.curr.kind),
        !s.tick(refill).topped_out ==> s.tick(refill).base() == s.grid,
        !s.tick(refill).topped_out && s.tick(refill).curr.covers(x, y) ==> s.grid[y][x] is None
            && s.tick(refill).grid[y][x] == Some(s.tick(refill).curr.kind),
        !s.tick(refill).curr.covers(x, y) && !s.tick(refill).shadow.covers(x, y) ==> s.tick(
            refill,
        ).grid[y][x] == s.grid[y][x],
{
    let t = s.tick(refill);
    lemma_at_rest(s);
    lemma_in_play_cells(s);
    lemma_lock_wf(s, refill);
    assert(s.settle().grid == s.grid);
    lemma_fresh_is_inside(s.next.last(), Rotation::Spawn);
    lemma_enter_wf(
        BoardView {
            next: if s.next.drop_last().len() == 0 {
                refill
            } else {
                s.next.drop_last()
            },
            ..s.settle()
        },
        s.grid,
        t.curr,
    );
    if !t.topped_out {
        lemma_in_play_cells(t);
        lemma_settled_is_bare(t.grid, t.curr);
    }
}

/// Four completed rows: they are the four rows from the origin of the piece
/// down; they are removed, every row above them moves down by four, four
/// empty rows enter at the top, the rows below stay, the count of cleared
/// lines goes up by four and the score by twelve hundred times the level,
/// counted from one, that is reached with these lines.
pub proof fn lemma_four_line_clear(s: BoardView, x: int, y: int)
    requires
        s.wf(),
        !s.topped_out,
        !s.can_shift(0, 1),
        count_lines(s.grid, s.curr, HEIGHT as int) == 4,
        in_bounds(x, y),
    ensures
        s.settle().cleared == s.cleared + 4,
        s.settle().level == (s.cleared + 4) / (LINES_PER_LEVEL as nat),
        s.settle().score == s.score + 1200 * (s.settle().level + 1),
        0 <= s.curr.origin.y,
        s.curr.origin.y + 4 <= HEIGHT,
        top_line(s.grid, s.curr, 0) == s.curr.origin.y,
        forall|r: int|
            s.curr.origin.y <= r < s.curr.origin.y + 4 ==> #[trigger] clears(s.grid, s.curr, r),
        y < 4 ==> s.settle().grid[y][x] is None,
        4 <= y < s.curr.origin.y + 4 ==> s.settle().grid[y][x] == s.grid[y - 4][x],
        s.curr.origin.y + 4 <= y ==> s.settle().grid[y][x] == s.grid[y][x],
{
    let g = s.grid;
    let p = s.curr;
    let oy = p.origin.y;
    lemma_at_rest(s);
    lemma_in_play_cells(s);
    let a = if oy < 0 {
        0
    } else {
        oy
    };
    let b = if oy + 4 > HEIGHT {
        HEIGHT as int
    } else if oy + 4 < a {
        a
    } else {
        oy + 4
    };
    lemma_count_is_zero(g, p, a);
    lemma_count_within(g, p, a, b);
    lemma_count_flat(g, p, b, HEIGHT as int);
    lemma_count_full(g, p, a, b);
    lemma_top_line(g, p, 0);
    assert(clears(g, p, oy));
    let top = top_line(g, p, 0);
    assert(spans(p, top));
    assert(p.minos[0].y >= 0 && p.minos[1].y >= 0 && p.minos[2].y >= 0 && p.minos[3].y >= 0);
    lemma_clearing_moves_rows_down(g, p, x, y);
}

/// Where as many rows are counted between two rows as there are rows, all
/// of them are cleared.
proof fn lemma_count_full(g: Grid, p: Piece, a: int, b: int)
    requires
        0 <= a <= b,
        count_lines(g, p, b) == count_lines(g, p, a) + (b - a),
    ensures
        forall|r: int| a <= r < b ==> #[trigger] clears(g, p, r),
    decreases b - a,
{
    if a < b {
        lemma_count_within(g, p, a, b - 1);
        lemma_count_full(g, p, a, b - 1);
    }
}

/// A piece that can go down is one row nearer to its landing preview after
/// it has: the preview stays where it is. A piece cannot go down exactly
/// when it stands on its preview.
pub proof fn lemma_down_nears_the_shadow(s: BoardView)
    requires
        s.wf(),
        !s.topped_out,
    ensures
        s.can_shift(0, 1) <==> s.drop_height() > 0,
        s.can_shift(0, 1) ==> s.shift(0, 1).shadow == s.shadow,
        s.can_shift(0, 1) ==> s.shift(0, 1).drop_height() == s.drop_height() - 1,
        s.shift(0, 1).wf(),
{
    let base = s.base();
    let p = s.curr;
    let q = p.shifted(0, 1);
    lemma_in_play_cells(s);
    lemma_settled_is_bare(s.grid, p);
    lemma_landing_is_lowest(base, p);
    lemma_fits_settled(s.grid, p, q);
    lemma_fits_settled(base, p, q);
    if s.can_shift(0, 1) {
        lemma_replace(s, q);
        lemma_fall_below(base, p, 0);
        assert(p.shifted(0, 1).shifted(0, fall(base, q, 0)) == p.shifted(0, fall(base, p, 0)));
    } else {
        assert(fall(base, p, 0) == 0);
    }
}

/// The board after the active piece has been moved down `n` times.
pub open spec fn sunk(s: BoardView, n: nat) -> BoardView
    decreases n,
{
    if n == 0 {
        s
    } else {
        sunk(s, (n - 1) as nat).shift(0, 1)
    }
}

/// Moving the piece down `n` rows, for any `n` up to the height above its
/// landing preview, takes it `n` rows down and changes nothing else; and
/// it can go down once more exactly when it has not reached the preview.
pub proof fn lemma_sinking(s: BoardView, n: nat)
    requires
        s.wf(),
        !s.topped_out,
        n <= s.drop_height(),
    ensures
        sunk(s, n) == s.enter(s.base(), s.curr.shifted(0, n as int)),
        sunk(s, n).wf(),
        !sunk(s, n).topped_out,
        sunk(s, n).can_shift(0, 1) <==> n < s.drop_height(),
    decreases n,
{
    lemma_sunk_is_descended(s, n);
    let t = sunk(s, n);
    if fits(t.grid, t.curr, t.curr.shifted(0, 1)) {
        lemma_descent_goes_on(s, n as int, t, t.score);
    } else {
        lemma_descent_ends(s, n as int, t);
    }
    reveal(descended);
}

/// The piece moved down `n` rows is on its way to its landing preview, and
/// has scored nothing for it.
proof fn lemma_sunk_is_descended(s: BoardView, n: nat)
    requires
        s.wf(),
        !s.topped_out,
        n <= s.drop_height(),
    ensures
        descended(s, n as int, sunk(s, n)),
        sunk(s, n).score == s.score,
    decreases n,
{
    if n == 0 {
        lemma_descent_starts(s);
    } else {
        let t = sunk(s, (n - 1) as nat);
        lemma_sunk_is_descended(s, (n - 1) as nat);
        if fits(t.grid, t.curr, t.curr.shifted(0, 1)) {
            lemma_descent_goes_on(s, n - 1, t, t.score);
            assert(sunk(s, n) == t.shift(0, 1));
            assert(t.shift(0, 1) == (BoardView { score: t.score, ..t.shift(0, 1) })) by {
                reveal(descended);
            }
        } else {
            lemma_descent_ends(s, n - 1, t);
        }
    }
}

/// A hard drop is the piece moved down row by row until it cannot go
/// further, two points scored for each row, and then brought to rest.
pub proof fn lemma_hard_drop_is_sinking(s: BoardView, refill: Seq<TetrominoType>)
    requires
        s.wf(),
        !s.topped_out,
    ensures
        0 <= s.drop_height(),
        forall|k: nat| k < s.drop_height() ==> (#[trigger] sunk(s, k)).can_shift(0, 1),
        !sunk(s, s.drop_height() as nat).can_shift(0, 1),
        s.hard_drop(refill) == (BoardView {
            score: (s.score + HARD_DROP * s.drop_height()) as nat,
            ..sunk(s, s.drop_height() as nat)
        }).lock(refill),
{
    lemma_descent_starts(s);
    let h = s.drop_height() as nat;
    assert forall|k: nat| k < s.drop_height() implies (#[trigger] sunk(s, k)).can_shift(0, 1) by {
        lemma_sinking(s, k);
    }
    lemma_sinking(s, h);
    assert(s.curr.shifted(0, h as int) == s.curr.at(s.shadow.origin));
}

/// A piece that has gone down one row falls one row less.
proof fn lemma_fall_below(base: Grid, p: Piece, k: int)
    requires
        well_shaped(base),
        inside(p),
        settled(base, p) == base,
        fits(base, p, p.shifted(0, 1)),
        0 <= k,
    ensures
        fall(base, p.shifted(0, 1), k) + 1 == fall(base, p, k + 1),
    decreases HEIGHT - k,
{
    let q = p.shifted(0, 1);
    let r = q.shifted(0, k + 1);
    assert(r == p.shifted(0, k + 2));
    lemma_fits_settled(base, p, q);
    lemma_fits_settled(base, q, r);
    lemma_fits_settled(base, p, r);
    assert forall|x: int, y: int| in_bounds(x, y) implies settled(base, q)[y][x]
        == base[y][x] by {
        if q.covers(x, y) {
            assert(clear_cell(base, x, y));
        }
    }
    lemma_grid_ext(settled(base, q), base);
    if 0 <= k < HEIGHT && fits(base, q, r) {
        if k + 1 < HEIGHT {
            lemma_fall_below(base, p, k + 1);
        }
    }
}

/// The cell `(x, y)` of the grid is empty.
spec fn clear_cell(g: Grid, x: int, y: int) -> bool {
    g[y][x] is None
}

/// The topmost cleared row is a cleared row, and no row above it is.
pub proof fn lemma_top_line(g: Grid, p: Piece, from: int)
    requires
        0 <= from <= HEIGHT,
    ensures
        from <= top_line(g, p, from) <= HEIGHT,
        top_line(g, p, from) < HEIGHT ==> clears(g, p, top_line(g, p, from)),
        forall|y: int| from <= y < top_line(g, p, from) ==> !clears(g, p, y),
    decreases HEIGHT - from,
{
    if from < HEIGHT && !clears(g, p, from) {
        lemma_top_line(g, p, from + 1);
    }
}

/// Rows are counted one by one: the count never shrinks as more rows are
/// taken in, and grows by one with each cleared row.
pub proof fn lemma_count_lines_grows(g: Grid, p: Piece, a: int, b: int)
    requires
        a <= b,
    ensures
        count_lines(g, p, a) <= count_lines(g, p, b),
        forall|y: int|
            a <= y < b && clears(g, p, y) ==> count_lines(g, p, a) < count_lines(g, p, b),
    decreases b - a,
{
    if a < b {
        lemma_count_lines_grows(g, p, a, b - 1);
    }
}

/// What clearing does to the grid: with `n` rows cleared, the topmost of
/// them row `top`, every row above row `top` moves down by `n` rows, in
/// order; empty rows take the place of those that moved away; and the rows
/// further down stay, emptied if they were cleared.
pub proof fn lemma_clearing_moves_rows_down(g: Grid, p: Piece, x: int, y: int)
    requires
        well_shaped(g),
        in_bounds(x, y),
        count_lines(g, p, HEIGHT as int) > 0,
    ensures
        ({
            let n = count_lines(g, p, HEIGHT as int) as int;
            let top = top_line(g, p, 0);
            &&& 0 <= top < HEIGHT
            &&& clears(g, p, top)
            &&& top + n <= HEIGHT
            &&& n <= y < top + n ==> collapsed(g, p)[y][x] == g[y - n][x]
            &&& y < top && y < n ==> collapsed(g, p)[y][x] is None
            &&& top + n <= y && clears(g, p, y) ==> collapsed(g, p)[y][x] is None
            &&& top + n <= y && !clears(g, p, y) ==> collapsed(g, p)[y][x] == g[y][x]
        }),
{
    let n = count_lines(g, p, HEIGHT as int) as int;
    let top = top_line(g, p, 0);
    lemma_top_line(g, p, 0);
    if top == HEIGHT {
        lemma_count_is_zero(g, p, HEIGHT as int);
    }
    lemma_count_is_zero(g, p, top);
    lemma_count_within(g, p, top, HEIGHT as int);
}

/// Where no row above row `upto` is cleared, none is counted.
proof fn lemma_count_is_zero(g: Grid, p: Piece, upto: int)
    requires
        forall|y: int| 0 <= y < upto ==> !clears(g, p, y),
    ensures
        count_lines(g, p, upto) == 0,
    decreases upto,
{
    if upto > 0 {
        lemma_count_is_zero(g, p, upto - 1);
    }
}

/// No more rows are counted between two rows than there are rows.
proof fn lemma_count_within(g: Grid, p: Piece, a: int, b: int)
    requires
        0 <= a <= b,
    ensures
        count_lines(g, p, b) <= count_lines(g, p, a) + (b - a),
    decreases b - a,
{
    if a < b {
        lemma_count_within(g, p, a, b - 1);
    }
}

/// One completed row: the row is removed, every row above it moves down by
/// one, an empty row enters at the top, the rows below stay, the count of
/// cleared lines goes up by one and the score by forty times the level,
/// counted from one, that is reached with this line.
pub proof fn lemma_single_line_clear(s: BoardView, row: int, x: int, y: int)
    requires
        s.wf(),
        !s.topped_out,
        !s.can_shift(0, 1),
        clears(s.grid, s.curr, row),
        count_lines(s.grid, s.curr, HEIGHT as int) == 1,
        in_bounds(x, y),
    ensures
        s.settle().cleared == s.cleared + 1,
        s.settle().level == (s.cleared + 1) / (LINES_PER_LEVEL as nat),
        s.settle().score == s.score + 40 * (s.settle().level + 1),
        y == 0 ==> s.settle().grid[y][x] is None,
        0 < y <= row ==> s.settle().grid[y][x] == s.grid[y - 1][x],
        row < y ==> s.settle().grid[y][x] == s.grid[y][x],
{
    let g = s.grid;
    lemma_at_rest(s);
    lemma_top_line(g, s.curr, 0);
    lemma_clearing_moves_rows_down(g, s.curr, x, y);
    let top = top_line(g, s.curr, 0);
    if top != row {
        if top < row {
            lemma_count_lines_grows(g, s.curr, 0, top + 1);
            lemma_count_lines_grows(g, s.curr, top + 1, HEIGHT as int);
        }
    }
    if row < y && clears(g, s.curr, y) {
        lemma_count_lines_grows(g, s.curr, 0, row + 1);
        lemma_count_lines_grows(g, s.curr, row + 1, HEIGHT as int);
    }
}

/// Points for lines: forty, a hundred, three hundred and twelve hundred for
/// one, two, three and four rows cleared at once, each times the level,
/// counted from one, that is reached with these lines.
pub proof fn lemma_line_points(s: BoardView)
    ensures
        ({
            let lines = count_lines(strip(s.grid), s.curr, HEIGHT as int);
            let t = s.settle();
            &&& t.cleared == s.cleared + lines
            &&& t.level == t.cleared / (LINES_PER_LEVEL as nat)
            &&& lines == 0 ==> t.score == s.score
            &&& lines == 1 ==> t.score == s.score + 40 * (t.level + 1)
            &&& lines == 2 ==> t.score == s.score + 100 * (t.level + 1)
            &&& lines == 3 ==> t.score == s.score + 300 * (t.level + 1)
            &&& lines == 4 ==> t.score == s.score + 1200 * (t.level + 1)
        }),
{
}

/// No piece clears more than four rows.
pub proof fn lemma_at_most_four_lines(g: Grid, p: Piece)
    requires
        crate::tetromino::boxed(p),
    ensures
        count_lines(g, p, HEIGHT as int) <= MINOS,
{
    let oy = p.origin.y;
    if oy >= HEIGHT {
        lemma_count_is_zero(g, p, HEIGHT as int);
    } else {
        let a = if oy < 0 {
            0
        } else {
            oy
        };
        let b = if oy + 4 > HEIGHT {
            HEIGHT as int
        } else if oy + 4 < a {
            a
        } else {
            oy + 4
        };
        lemma_count_is_zero(g, p, a);
        lemma_count_within(g, p, a, b);
        lemma_count_flat(g, p, b, HEIGHT as int);
    }
}

/// Where no row between two rows is cleared, the count stays.
proof fn lemma_count_flat(g: Grid, p: Piece, a: int, b: int)
    requires
        a <= b,
        forall|y: int| a <= y < b ==> !clears(g, p, y),
    ensures
        count_lines(g, p, b) == count_lines(g, p, a),
    decreases b - a,
{
    if a < b {
        lemma_count_flat(g, p, a, b - 1);
    }
}

/// The score, the level and the count of cleared lines never go down, and
/// only gravity and a hard drop move them.
pub proof fn lemma_counters_never_go_down(
    s: BoardView,
    refill: Seq<TetrominoType>,
    dir: Direction,
    dx: int,
    dy: int,
)
    requires
        s.wf(),
    ensures
        s.tick(refill).score >= s.score,
        s.tick(refill).cleared >= s.cleared,
        s.tick(refill).level >= s.level,
        s.hard_drop(refill).score >= s.score,
        s.hard_drop(refill).cleared >= s.cleared,
        s.hard_drop(refill).level >= s.level,
        s.shift(dx, dy).score == s.score,
        s.shift(dx, dy).cleared == s.cleared,
        s.shift(dx, dy).level == s.level,
        s.turn(dir).score == s.score,
        s.turn(dir).cleared == s.cleared,
        s.turn(dir).level == s.level,
        s.swap_hold(refill).score == s.score,
        s.swap_hold(refill).cleared == s.cleared,
        s.swap_hold(refill).level == s.level,
{
    if !s.topped_out {
        lemma_in_play_cells(s);
    }
}

/// Pieces are dealt from the back of the draw sequence, one after the
/// other; when the last has been dealt, a full sequence takes its place,
/// and the next seven pieces are one of each kind.
pub proof fn lemma_draws_deal_every_kind(s: BoardView, base: Grid, refill: Seq<TetrominoType>)
    requires
        s.steady(),
        is_full_bag(refill),
    ensures
        s.spawn(base, refill).curr.kind == s.next.last(),
        s.next.len() > 1 ==> s.spawn(base, refill).next == s.next.drop_last(),
        s.next.len() == 1 ==> s.spawn(base, refill).next == refill,
        s.spawn(base, refill).next.len() >= 1,
        s.spawn(base, refill).next.no_duplicates(),
        refill.len() == TYPES,
        forall|kind: TetrominoType| kind != TetrominoType::Shadow ==> refill.contains(kind),
{
    lemma_full_bag_holds_every_kind(refill);
    lemma_rest_is_bag(s.next);
}

/// The hold slot can be used once between two pieces coming to rest: using
/// it locks it, and a locked slot does nothing.
pub proof fn lemma_hold_once(s: BoardView, refill: Seq<TetrominoType>, again: Seq<TetrominoType>)
    requires
        !s.topped_out,
        !s.hold_locked,
    ensures
        s.swap_hold(refill).hold_locked,
        s.swap_hold(refill).hold == Some(s.curr.at(spawn_pos())),
        s.swap_hold(refill).swap_hold(again) == s.swap_hold(refill),
        s.hold matches Some(held) ==> s.swap_hold(refill).curr == held,
        s.hold is None ==> s.swap_hold(refill).curr == Piece::fresh(
            spawn_pos(),
            s.next.last(),
            Rotation::Spawn,
        ),
{
}

} // verus!
