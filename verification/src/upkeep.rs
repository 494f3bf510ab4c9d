//! Why the moves keep the board well-formed: what the field looks like on
//! the way from one state to the next, and the steps of the proofs that the
//! moves of the board rest on.

use crate::bag::{is_bag, is_full_bag, lemma_rest_is_bag};
use crate::grid::{
    fall, fits, in_bounds, inside, landing, lemma_fall_same, lemma_fits_settled,
    lemma_grid_ext, lemma_landing_is_lowest, lemma_same_cells, near, settled, shade, stamp,
    strip, tabulate, unshade, well_shaped, Grid, HEIGHT,
};
use crate::state::{
    bare, clears, collapsed, count_lines, first_blocked, render, spawn_pos, BoardView,
};
use crate::tetromino::{
    boxed, distinct, lemma_shape_in_box, lemma_shape_is_tetromino, Piece, Rotation,
    TetrominoType, MINOS,
};
use vstd::prelude::*;

verus! {

/// The grid with every cleared row above row `upto` emptied.
pub open spec fn wiped_above(g: Grid, p: Piece, upto: int) -> Grid {
    tabulate(
        |x: int, y: int|
            if y < upto && clears(g, p, y) {
                None
            } else {
                g[y][x]
            },
    )
}

/// The grid `w` on the way to `dropped(w, top, n)`: the rows from row
/// `from` to row `top` have moved down so far.
pub open spec fn dropping(w: Grid, top: int, n: int, from: int) -> Grid {
    tabulate(
        |x: int, y: int|
            if from + n <= y < top + n {
                w[y - n][x]
            } else if from <= y < top {
                None
            } else {
                w[y][x]
            },
    )
}

/// The board as it is after its active piece has left its cells for the
/// place `q`, the old landing preview has been taken off and the new one
/// marked.
pub open spec fn replaced(s: BoardView, q: Piece) -> BoardView {
    let moved = stamp(stamp(s.grid, s.curr, MINOS as int, None), q, MINOS as int, Some(q.kind));
    let g0 = unshade(moved, s.shadow);
    BoardView { grid: shade(g0, landing(g0, q), q), shadow: landing(g0, q), curr: q, ..s }
}

/// The board `s` is the board `s0` after its active piece has gone down `j`
/// rows towards its landing preview, whatever it has scored on the way.
#[verifier::opaque]
pub open spec fn descended(s0: BoardView, j: int, s: BoardView) -> bool {
    &&& s0.wf()
    &&& !s0.topped_out
    &&& 0 <= j <= s0.drop_height()
    &&& s.wf()
    &&& !s.topped_out
    &&& s.base() == s0.base()
    &&& s == (BoardView { score: s.score, ..s0.enter(s0.base(), s0.curr.shifted(0, j)) })
}

/// No cell of a piece whose offsets differ is one of the cells before it.
pub proof fn lemma_cells_differ(p: Piece, i: int)
    requires
        distinct(p.minos),
        p.minos.len() == MINOS,
        0 <= i < MINOS,
    ensures
        !p.covers_with(i, p.cell(i).x, p.cell(i).y),
{
    assert forall|k: int| 0 <= k < i implies p.cell(k) != p.cell(i) by {
        assert(p.minos[k] != p.minos[i]);
    }
}

/// Settled geometry has the shape of a grid, shows no preview marker, and
/// is empty where the piece is.
pub proof fn lemma_settled_is_bare(g: Grid, p: Piece)
    ensures
        well_shaped(settled(g, p)),
        bare(settled(g, p)),
        settled(settled(g, p), p) == settled(g, p),
        forall|x: int, y: int|
            in_bounds(x, y) && p.covers(x, y) ==> (#[trigger] settled(g, p)[y][x]) is None,
{
    lemma_grid_ext(settled(settled(g, p), p), settled(g, p));
}

/// A piece that fits a place finds every cell of it on the grid and empty
/// in the settled geometry.
pub proof fn lemma_fits_is_unblocked(g: Grid, p: Piece, q: Piece)
    requires
        well_shaped(g),
        fits(g, p, q),
    ensures
        inside(q),
        first_blocked(settled(g, p), q) == MINOS,
{
}

/// What the board shows cell by cell while the game is in progress: the
/// active piece, else the landing preview, else the settled geometry. The
/// preview lies on empty cells only.
pub proof fn lemma_in_play_cells(s: BoardView)
    requires
        s.wf(),
        !s.topped_out,
    ensures
        boxed(s.curr),
        near(s.curr),
        near(s.shadow),
        inside(s.shadow),
        distinct(s.curr.minos),
        s.shadow == s.curr.shifted(0, s.drop_height()).as_ghost(),
        0 <= s.drop_height() < HEIGHT,
        forall|x: int, y: int|
            in_bounds(x, y) ==> #[trigger] s.grid[y][x] == if s.curr.covers(x, y) {
                Some(s.curr.kind)
            } else if s.shadow.covers(x, y) {
                Some(TetrominoType::Shadow)
            } else {
                s.base()[y][x]
            },
        forall|x: int, y: int|
            in_bounds(x, y) && s.shadow.covers(x, y) ==> (#[trigger] s.base()[y][x]) is None,
{
    let base = s.base();
    lemma_settled_is_bare(s.grid, s.curr);
    lemma_shape_in_box(s.curr.kind, s.curr.rot);
    lemma_shape_is_tetromino(s.curr.kind, s.curr.rot);
    lemma_landing_is_lowest(base, s.curr);
    assert(s.grid == render(base, s.curr));
    assert forall|x: int, y: int| in_bounds(x, y) && s.shadow.covers(x, y) implies (
    #[trigger] base[y][x]) is None by {
        assert(fits(base, s.curr, s.shadow));
    }
}

/// A piece that enters unhindered over settled geometry leaves the board in
/// a state of a game in progress, over the same settled geometry.
pub proof fn lemma_enter_in_play(s: BoardView, base: Grid, p: Piece)
    requires
        well_shaped(base),
        bare(base),
        p.is_playable(),
        inside(p),
        first_blocked(base, p) == MINOS,
    ensures
        s.enter(base, p).base() == base,
        s.enter(base, p).in_play(),
        s.enter(base, p).topped_out == s.topped_out,
        well_shaped(s.enter(base, p).grid),
{
    let t = s.enter(base, p);
    lemma_shape_in_box(p.kind, p.rot);
    lemma_landing_is_lowest(base, p);
    let l = landing(base, p);
    assert forall|x: int, y: int| in_bounds(x, y) implies t.base()[y][x] == base[y][x] by {
        if p.covers(x, y) {
        } else if l.covers(x, y) {
            assert(fits(base, p, l));
        }
    }
    lemma_grid_ext(t.base(), base);
}

/// The board after its active piece has left its cells for a place that
/// fits, and the landing preview has been dropped anew: the piece has
/// entered that place over the same settled geometry.
pub proof fn lemma_replace(s: BoardView, q: Piece)
    requires
        s.wf(),
        !s.topped_out,
        fits(s.grid, s.curr, q),
        q.is_playable(),
        q.kind == s.curr.kind,
    ensures
        replaced(s, q) == s.enter(s.base(), q),
        s.enter(s.base(), q).wf(),
        s.enter(s.base(), q).base() == s.base(),
        !s.enter(s.base(), q).topped_out,
{
    let base = s.base();
    let moved = stamp(stamp(s.grid, s.curr, MINOS as int, None), q, MINOS as int, Some(q.kind));
    let g0 = unshade(moved, s.shadow);
    lemma_in_play_cells(s);
    lemma_settled_is_bare(s.grid, s.curr);
    lemma_fits_is_unblocked(s.grid, s.curr, q);
    lemma_shape_in_box(q.kind, q.rot);
    lemma_grid_ext(g0, stamp(base, q, MINOS as int, Some(q.kind)));
    lemma_grid_ext(settled(g0, q), settled(base, q));
    lemma_fall_same(g0, base, q, 0);
    let l = landing(base, q);
    lemma_grid_ext(shade(g0, l, q), stamp(shade(base, l, q), q, MINOS as int, Some(q.kind)));
    lemma_enter_in_play(s, base, q);
}

/// Where no row is counted, no row is cleared.
pub proof fn lemma_no_lines(g: Grid, p: Piece, upto: int)
    requires
        count_lines(g, p, upto) == 0,
    ensures
        forall|y: int| y < upto ==> !clears(g, p, y),
    decreases upto,
{
    if upto > 0 {
        lemma_no_lines(g, p, upto - 1);
    }
}

/// A board whose game is in progress shows what its active piece shows
/// when it enters over the settled geometry.
pub proof fn lemma_enter_self(s: BoardView)
    requires
        s.wf(),
        !s.topped_out,
    ensures
        s.enter(s.base(), s.curr) == s,
{
    lemma_settled_is_bare(s.grid, s.curr);
}

/// A board whose active piece cannot go down shows no preview marker: the
/// piece stands on its own landing preview.
pub proof fn lemma_at_rest(s: BoardView)
    requires
        s.wf(),
        !s.topped_out,
        !s.can_shift(0, 1),
    ensures
        s.drop_height() == 0,
        strip(s.grid) == s.grid,
        bare(s.grid),
{
    lemma_in_play_cells(s);
    lemma_settled_is_bare(s.grid, s.curr);
    lemma_fits_settled(s.grid, s.curr, s.curr.shifted(0, 1));
    lemma_fits_settled(s.base(), s.curr, s.curr.shifted(0, 1));
    assert(fall(s.base(), s.curr, 0) == 0);
    lemma_grid_ext(strip(s.grid), s.grid);
}

/// Taking the active piece and its landing preview off the board leaves the
/// settled geometry.
pub proof fn lemma_lift(s: BoardView)
    requires
        s.wf(),
        !s.topped_out,
    ensures
        stamp(stamp(s.grid, s.curr, MINOS as int, None), s.shadow, MINOS as int, None)
            == s.base(),
{
    lemma_in_play_cells(s);
    lemma_settled_is_bare(s.grid, s.curr);
    lemma_grid_ext(
        stamp(stamp(s.grid, s.curr, MINOS as int, None), s.shadow, MINOS as int, None),
        s.base(),
    );
}

/// A newly dealt piece at the spawn origin is on the grid.
pub proof fn lemma_fresh_is_inside(kind: TetrominoType, rot: Rotation)
    requires
        kind != TetrominoType::Shadow,
    ensures
        Piece::fresh(spawn_pos(), kind, rot).is_playable(),
        inside(Piece::fresh(spawn_pos(), kind, rot)),
        near(Piece::fresh(spawn_pos(), kind, rot)),
        distinct(Piece::fresh(spawn_pos(), kind, rot).minos),
{
    lemma_shape_in_box(kind, rot);
    lemma_shape_is_tetromino(kind, rot);
}

/// A piece that one can be dealt and that is on the grid leaves the board
/// well-formed when it enters over settled geometry, whether it enters
/// unhindered or the game ends.
pub proof fn lemma_enter_wf(s: BoardView, base: Grid, p: Piece)
    requires
        s.steady(),
        well_shaped(base),
        bare(base),
        p.is_playable(),
        inside(p),
    ensures
        s.enter(base, p).wf(),
        !s.enter(base, p).topped_out ==> s.enter(base, p).base() == base,
{
    if first_blocked(base, p) == MINOS {
        lemma_enter_in_play(s, base, p);
    }
}

/// The next piece of the draw sequence leaves the board well-formed when it
/// enters over settled geometry.
pub proof fn lemma_spawn_wf(s: BoardView, base: Grid, refill: Seq<TetrominoType>)
    requires
        s.steady(),
        well_shaped(base),
        bare(base),
        is_full_bag(refill),
    ensures
        s.spawn(base, refill).wf(),
        s.spawn(base, refill).curr == Piece::fresh(
            spawn_pos(),
            s.next.last(),
            Rotation::Spawn,
        ),
{
    let rest = s.next.drop_last();
    let t = BoardView {
        next: if rest.len() == 0 {
            refill
        } else {
            rest
        },
        ..s
    };
    lemma_rest_is_bag(s.next);
    lemma_fresh_is_inside(s.next.last(), Rotation::Spawn);
    lemma_enter_wf(t, base, Piece::fresh(spawn_pos(), s.next.last(), Rotation::Spawn));
}

/// What is left when a piece has come to rest on a grid without preview
/// markers is again a grid without preview markers.
pub proof fn lemma_collapsed_is_bare(g: Grid, p: Piece)
    requires
        well_shaped(g),
        bare(g),
    ensures
        well_shaped(collapsed(g, p)),
        bare(collapsed(g, p)),
{
}

/// A descent starts where the board is.
pub proof fn lemma_descent_starts(s0: BoardView)
    requires
        s0.wf(),
        !s0.topped_out,
    ensures
        descended(s0, 0, s0),
        0 <= s0.drop_height() < HEIGHT,
        near(s0.curr),
        inside(s0.curr),
        near(s0.shadow),
        inside(s0.shadow),
{
    reveal(descended);
    lemma_in_play_cells(s0);
    lemma_enter_self(s0);
    assert(s0.curr.shifted(0, 0) == s0.curr);
}

/// A descent goes on while the piece can go down: it has not reached its
/// landing preview yet, and one row further down it is again on its way,
/// whatever it scores for the row.
pub proof fn lemma_descent_goes_on(s0: BoardView, j: int, s: BoardView, score: nat)
    requires
        descended(s0, j, s),
        fits(s.grid, s.curr, s.curr.shifted(0, 1)),
    ensures
        j + 1 <= s0.drop_height(),
        inside(s.curr.shifted(0, 1)),
        s.shift(0, 1) == replaced(s, s.curr.shifted(0, 1)),
        descended(s0, j + 1, BoardView { score, ..s.shift(0, 1) }),
        near(s.shift(0, 1).curr),
        inside(s.shift(0, 1).curr),
        near(s.shift(0, 1).shadow),
        inside(s.shift(0, 1).shadow),
{
    reveal(descended);
    let base = s0.base();
    let first = s0.curr;
    let q = s.curr.shifted(0, 1);
    assert(q == first.shifted(0, j + 1));
    lemma_in_play_cells(s0);
    lemma_in_play_cells(s);
    lemma_settled_is_bare(s0.grid, s0.curr);
    lemma_landing_is_lowest(base, first);
    lemma_fits_settled(s.grid, s.curr, q);
    lemma_fits_settled(base, first, q);
    lemma_fits_is_unblocked(s.grid, s.curr, q);
    if j == s0.drop_height() {
        lemma_same_cells(base, first, landing(base, first).shifted(0, 1), q);
    }
    lemma_replace(s, q);
    lemma_in_play_cells(s.enter(s.base(), q));
    let t = BoardView { score, ..s.shift(0, 1) };
    assert(t.base() == s.shift(0, 1).base());
    assert(t.in_play() == s.shift(0, 1).in_play());
}

/// A descent ends where the piece cannot go down: on its landing preview.
pub proof fn lemma_descent_ends(s0: BoardView, j: int, s: BoardView)
    requires
        descended(s0, j, s),
        !fits(s.grid, s.curr, s.curr.shifted(0, 1)),
    ensures
        j == s0.drop_height(),
        s == (BoardView {
            score: s.score,
            ..s0.enter(s0.base(), s0.curr.at(s0.shadow.origin))
        }),
        s.wf(),
        !s.topped_out,
        !s.can_shift(0, 1),
{
    reveal(descended);
    let base = s0.base();
    let first = s0.curr;
    let q = s.curr.shifted(0, 1);
    assert(q == first.shifted(0, j + 1));
    lemma_in_play_cells(s0);
    lemma_settled_is_bare(s0.grid, s0.curr);
    lemma_landing_is_lowest(base, first);
    lemma_fits_settled(s.grid, s.curr, q);
    lemma_fits_settled(base, first, q);
    assert(j == s0.drop_height());
    assert(first.shifted(0, j) == first.at(s0.shadow.origin));
}

/// A game that starts over settled geometry with a draw sequence of two
/// kinds or more starts well-formed.
pub proof fn lemma_start_wf(base: Grid, bag: Seq<TetrominoType>)
    requires
        well_shaped(base),
        strip(base) == base,
        is_bag(bag),
        bag.len() >= 2,
    ensures
        BoardView::start(base, bag).wf(),
{
    let p = Piece::fresh(spawn_pos(), bag.last(), Rotation::Spawn);
    let rest = bag.drop_last();
    let init = BoardView {
        grid: base,
        curr: p,
        shadow: p.as_ghost(),
        hold: None,
        hold_locked: false,
        next: rest,
        topped_out: false,
        score: 0,
        level: 0,
        cleared: 0,
    };
    lemma_rest_is_bag(bag);
    assert(bare(base)) by {
        assert forall|x: int, y: int| in_bounds(x, y) implies #[trigger] base[y][x] != Some(
            TetrominoType::Shadow,
        ) by {
            assert(strip(base)[y][x] == base[y][x]);
        }
    }
    lemma_fresh_is_inside(bag.last(), Rotation::Spawn);
    lemma_enter_wf(init, base, p);
}

/// A piece that comes to rest leaves the board well-formed, and the next
/// piece of the draw sequence enters at the spawn origin in spawn rotation.
pub proof fn lemma_lock_wf(s: BoardView, refill: Seq<TetrominoType>)
    requires
        s.wf(),
        is_full_bag(refill),
    ensures
        s.lock(refill).wf(),
        s.lock(refill).curr == Piece::fresh(spawn_pos(), s.next.last(), Rotation::Spawn),
        !s.lock(refill).hold_locked,
{
    let g = strip(s.grid);
    lemma_grid_ext(strip(g), g);
    lemma_collapsed_is_bare(g, s.curr);
    lemma_spawn_wf(s.settle(), s.settle().grid, refill);
}

} // verus!
