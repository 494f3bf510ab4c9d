//! The states of a game and what each move makes of them: the mathematical
//! model of the board.

use crate::bag::is_bag;
use crate::grid::{
    fits, in_bounds, inside, landing, settled, shade, stamp, strip, tabulate, vacant,
    well_shaped, Grid, HEIGHT, WIDTH,
};
use crate::srs;
use crate::srs::Direction;
use crate::tetromino::{Piece, Pos, Rotation, TetrominoType, MINOS};
use vstd::prelude::*;

verus! {

/// Points awarded for each row that gravity takes the piece down.
pub const SOFT_DROP: usize = 1;

/// Points awarded for each row of a hard drop.
pub const HARD_DROP: usize = 2;

/// Lines it takes to reach the next level.
pub const LINES_PER_LEVEL: usize = 10;

/// The origin at which every piece enters: centered, top row.
pub open spec fn spawn_pos() -> Pos {
    Pos { x: 3, y: 0 }
}

/// What a `Board` stands for.
pub struct BoardView {
    /// The cells, as they are shown: settled geometry, the landing preview
    /// and the active piece.
    pub grid: Grid,
    /// The active piece.
    pub curr: Piece,
    /// The landing preview of the active piece.
    pub shadow: Piece,
    /// The piece in the hold slot, if any.
    pub hold: Option<Piece>,
    /// The hold slot was used since the last piece came to rest.
    pub hold_locked: bool,
    /// The draw sequence; the next piece is its last entry.
    pub next: Seq<TetrominoType>,
    /// A piece could not enter: the game is over.
    pub topped_out: bool,
    pub score: nat,
    pub level: nat,
    pub cleared: nat,
}

/// The index of the first cell of `p` that is occupied on `g`; the number of
/// cells if none is.
pub open spec fn first_blocked(g: Grid, p: Piece) -> int {
    if g[p.cell(0).y][p.cell(0).x] is Some {
        0
    } else if g[p.cell(1).y][p.cell(1).x] is Some {
        1
    } else if g[p.cell(2).y][p.cell(2).x] is Some {
        2
    } else if g[p.cell(3).y][p.cell(3).x] is Some {
        3
    } else {
        4
    }
}

/// The grid as it is shown when the piece `p` stands unhindered on the
/// settled geometry `base`: the landing preview marked, the piece drawn.
pub open spec fn render(base: Grid, p: Piece) -> Grid {
    stamp(shade(base, landing(base, p), p), p, MINOS as int, Some(p.kind))
}

/// Row `y` is complete: every cell of it holds something solid.
pub open spec fn is_line(g: Grid, y: int) -> bool {
    forall|x: int| 0 <= x < WIDTH ==> !vacant(#[trigger] g[y][x])
}

/// The piece has a cell in row `y`.
pub open spec fn spans(p: Piece, y: int) -> bool {
    p.cell(0).y == y || p.cell(1).y == y || p.cell(2).y == y || p.cell(3).y == y
}

/// Row `y` is cleared when `p` comes to rest on `g`: it is a row of the
/// grid that `p` has a cell in, and it is complete.
pub open spec fn clears(g: Grid, p: Piece, y: int) -> bool {
    0 <= y < HEIGHT && spans(p, y) && is_line(g, y)
}

/// The number of rows above row `upto` that are cleared.
pub open spec fn count_lines(g: Grid, p: Piece, upto: int) -> nat
    decreases upto,
{
    if upto <= 0 {
        0
    } else {
        count_lines(g, p, upto - 1) + if clears(g, p, upto - 1) {
            1nat
        } else {
            0nat
        }
    }
}

/// The topmost cleared row at or below row `from`; `HEIGHT` if there is none.
pub open spec fn top_line(g: Grid, p: Piece, from: int) -> int
    decreases HEIGHT - from,
{
    if from >= HEIGHT {
        HEIGHT as int
    } else if clears(g, p, from) {
        from
    } else {
        top_line(g, p, from + 1)
    }
}

/// The grid with every cleared row emptied.
pub open spec fn wiped(g: Grid, p: Piece) -> Grid {
    tabulate(
        |x: int, y: int|
            if clears(g, p, y) {
                None
            } else {
                g[y][x]
            },
    )
}

/// The grid `w` with the rows above row `top` moved down by `n` rows, and
/// empty rows in their place.
pub open spec fn dropped(w: Grid, top: int, n: int) -> Grid {
    tabulate(
        |x: int, y: int|
            if n <= y < top + n {
                w[y - n][x]
            } else if y < top {
                None
            } else {
                w[y][x]
            },
    )
}

/// The grid after `p` has come to rest on it: the cleared rows are emptied,
/// and the rows above the topmost of them move down by as many rows as were
/// cleared, in their order.
pub open spec fn collapsed(g: Grid, p: Piece) -> Grid {
    let n = count_lines(g, p, HEIGHT as int);
    if n == 0 {
        g
    } else {
        dropped(wiped(g, p), top_line(g, p, 0), n as int)
    }
}

/// The points for clearing `lines` rows at once on the given level.
pub open spec fn line_score(lines: nat, level: nat) -> nat {
    if lines == 1 {
        40 * (level + 1)
    } else if lines == 2 {
        100 * (level + 1)
    } else if lines == 3 {
        300 * (level + 1)
    } else if lines == 4 {
        1200 * (level + 1)
    } else {
        0
    }
}

/// The grid shows no preview marker.
pub open spec fn bare(g: Grid) -> bool {
    forall|x: int, y: int| in_bounds(x, y) ==> #[trigger] g[y][x] != Some(TetrominoType::Shadow)
}

impl BoardView {
    /// The settled geometry: the grid without the active piece and without
    /// the landing preview.
    pub open spec fn base(self) -> Grid {
        settled(self.grid, self.curr)
    }

    /// The state of a game in progress: the active piece is on the grid, the
    /// landing preview is where the piece would come to rest, and the grid
    /// shows the settled geometry, the preview and the piece, nothing else.
    pub open spec fn in_play(self) -> bool {
        &&& inside(self.curr)
        &&& self.shadow == landing(self.base(), self.curr)
        &&& self.grid == render(self.base(), self.curr)
    }

    /// What holds of the hold slot, the draw sequence and the counters at
    /// all times: a held piece is one a player can be dealt and waits at the
    /// spawn origin; the draw sequence is not empty and deals no kind twice;
    /// the level goes up by one every ten lines.
    pub open spec fn steady(self) -> bool {
        &&& (self.hold matches Some(held) ==> held.is_playable() && held.origin == spawn_pos())
        &&& is_bag(self.next)
        &&& self.next.len() >= 1
        &&& self.level == self.cleared / (LINES_PER_LEVEL as nat)
    }

    /// The invariant of the board.
    pub open spec fn wf(self) -> bool {
        &&& well_shaped(self.grid)
        &&& self.curr.is_playable()
        &&& self.shadow.kind == TetrominoType::Shadow
        &&& self.shadow.minos == self.curr.minos
        &&& self.shadow.rot == self.curr.rot
        &&& self.steady()
        &&& (!self.topped_out ==> self.in_play())
    }

    /// The state after the piece `p` has entered over the settled geometry
    /// `base`: the landing preview is marked, and the cells of `p` are drawn
    /// one after the other up to the first that is occupied. If one is, the
    /// game is over.
    pub open spec fn enter(self, base: Grid, p: Piece) -> BoardView {
        let n = first_blocked(base, p);
        BoardView {
            grid: stamp(shade(base, landing(base, p), p), p, n, Some(p.kind)),
            curr: p,
            shadow: landing(base, p),
            topped_out: self.topped_out || n < MINOS,
            ..self
        }
    }

    /// The state after the next piece of the draw sequence has entered over
    /// the settled geometry `base`. When that was the last piece of the
    /// sequence, `refill` takes the sequence's place.
    pub open spec fn spawn(self, base: Grid, refill: Seq<TetrominoType>) -> BoardView {
        let rest = self.next.drop_last();
        BoardView {
            next: if rest.len() == 0 {
                refill
            } else {
                rest
            },
            ..self
        }.enter(base, Piece::fresh(spawn_pos(), self.next.last(), Rotation::Spawn))
    }

    /// The first state of a game on the settled geometry `base` with the
    /// draw sequence `bag`: the last kind of the sequence has entered, the
    /// hold slot is empty and the counters are at zero.
    pub open spec fn start(base: Grid, bag: Seq<TetrominoType>) -> BoardView {
        let p = Piece::fresh(spawn_pos(), bag.last(), Rotation::Spawn);
        BoardView {
            grid: base,
            curr: p,
            shadow: p.as_ghost(),
            hold: None,
            hold_locked: false,
            next: bag.drop_last(),
            topped_out: false,
            score: 0,
            level: 0,
            cleared: 0,
        }.enter(base, p)
    }

    /// The active piece may move by `(dx, dy)`.
    pub open spec fn can_shift(self, dx: int, dy: int) -> bool {
        !self.topped_out && fits(self.grid, self.curr, self.curr.shifted(dx, dy))
    }

    /// The state after an attempt to move the active piece by `(dx, dy)`:
    /// the piece has moved if it may, and nothing has changed if not.
    pub open spec fn shift(self, dx: int, dy: int) -> BoardView {
        if self.can_shift(dx, dy) {
            self.enter(self.base(), self.curr.shifted(dx, dy))
        } else {
            self
        }
    }

    /// The state after an attempt to turn the active piece: the piece has
    /// taken the place that the rotation system gives it, and nothing has
    /// changed if it gives none.
    pub open spec fn turn(self, dir: Direction) -> BoardView {
        if self.topped_out {
            self
        } else {
            match srs::rotation(self.grid, self.curr, dir) {
                Some(q) => self.enter(self.base(), q),
                None => self,
            }
        }
    }

    /// The state after the active piece has come to rest and before the
    /// next one enters: the piece is part of the settled geometry, the rows
    /// it completed are cleared, the counters are brought up to date, and
    /// the hold slot may be used again.
    pub open spec fn settle(self) -> BoardView {
        let g = strip(self.grid);
        let lines = count_lines(g, self.curr, HEIGHT as int);
        let cleared = self.cleared + lines;
        let level = cleared / (LINES_PER_LEVEL as nat);
        BoardView {
            grid: collapsed(g, self.curr),
            hold_locked: false,
            cleared,
            level,
            score: self.score + line_score(lines, level),
            ..self
        }
    }

    /// The state after the active piece has come to rest and the next one
    /// has entered.
    pub open spec fn lock(self, refill: Seq<TetrominoType>) -> BoardView {
        let s = self.settle();
        s.spawn(s.grid, refill)
    }

    /// The state after one step of gravity: the piece goes down one row and
    /// scores for it, or, where it cannot, comes to rest. Nothing changes
    /// once the game is over.
    pub open spec fn tick(self, refill: Seq<TetrominoType>) -> BoardView {
        if self.topped_out {
            self
        } else if self.can_shift(0, 1) {
            BoardView { score: self.score + SOFT_DROP as nat, ..self.shift(0, 1) }
        } else {
            self.lock(refill)
        }
    }

    /// The number of rows between the active piece and its landing preview.
    pub open spec fn drop_height(self) -> int {
        self.shadow.origin.y - self.curr.origin.y
    }

    /// The state after a hard drop: the piece goes down onto its landing
    /// preview, scores for every row of the way, and comes to rest.
    pub open spec fn hard_drop(self, refill: Seq<TetrominoType>) -> BoardView {
        if self.topped_out {
            self
        } else {
            BoardView {
                score: (self.score + HARD_DROP * self.drop_height()) as nat,
                ..self.enter(self.base(), self.curr.at(self.shadow.origin))
            }.lock(refill)
        }
    }

    /// The state after the hold slot has been asked for: the active piece
    /// goes into the slot, and the piece that was there, or else the next
    /// of the draw sequence, enters in its place. Nothing changes while the
    /// slot is locked, or once the game is over.
    pub open spec fn swap_hold(self, refill: Seq<TetrominoType>) -> BoardView {
        if self.topped_out || self.hold_locked {
            self
        } else {
            let s = BoardView {
                hold: Some(self.curr.at(spawn_pos())),
                hold_locked: true,
                ..self
            };
            match self.hold {
                Some(held) => s.enter(self.base(), held),
                None => s.spawn(self.base(), refill),
            }
        }
    }

    /// The counters have room for the lines that one piece can clear and
    /// for the points they give.
    pub open spec fn has_room_for_lines(self) -> bool {
        &&& self.cleared + MINOS <= usize::MAX
        &&& self.score + 1200 * ((self.cleared + MINOS) / (LINES_PER_LEVEL as int) + 1)
            <= usize::MAX
    }

    /// The board can take a step of gravity or a hard drop: either the game
    /// is over, and nothing will be counted, or the counters have room for
    /// what the move can add to them.
    pub open spec fn can_fall(self) -> bool {
        self.topped_out || self.has_headroom()
    }

    /// The counters have room for the most that one move can add to them: a
    /// hard drop from the top, and four lines cleared at its end.
    pub open spec fn has_headroom(self) -> bool {
        &&& self.cleared + MINOS <= usize::MAX
        &&& self.score + HARD_DROP * HEIGHT + 1200 * ((self.cleared + MINOS) / (
        LINES_PER_LEVEL as int) + 1) <= usize::MAX
    }
}

} // verus!
