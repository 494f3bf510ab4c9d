//! The board: the grid with its active piece, the landing preview, the hold
//! slot, the draw sequence and the counters, and the moves that change them.

use crate::bag::{fresh_bag, is_bag, is_full_bag, lemma_all_kinds_is_full, standby};
use crate::grid::{
    admits, blank, blank_field, cell_of, empty_row, fall, fits, get, get_row, grid_of,
    inside, landing, lemma_fits_cell_by_cell, lemma_grid_ext, lemma_grid_of_well_shaped,
    lemma_same_cells, lemma_shade_step,
    lemma_stamp_none, lemma_stamp_step, lemma_unshade_step, near, paint, put, set_row, shade,
    shade_first, stamp, strip, strip_field, unshade, unshade_first, vacant, well_shaped,
};
use crate::srs;
use crate::srs::Direction;
use crate::state::{
    collapsed, count_lines, dropped, first_blocked, is_line, line_score, spans, spawn_pos,
    top_line, wiped, BoardView, HARD_DROP, LINES_PER_LEVEL, SOFT_DROP,
};
use crate::tetromino::{
    boxed, distinct, Piece, Point, Rotation, Tetromino, TetrominoType, MINOS,
};
use crate::upkeep::{
    descended, dropping, lemma_at_rest, lemma_cells_differ, lemma_descent_ends,
    lemma_descent_goes_on, lemma_descent_starts, lemma_enter_wf, lemma_fits_is_unblocked,
    lemma_fresh_is_inside, lemma_in_play_cells, lemma_lift, lemma_lock_wf, lemma_no_lines,
    lemma_replace, lemma_settled_is_bare, lemma_spawn_wf, lemma_start_wf, wiped_above,
};
use vstd::prelude::*;

pub use crate::grid::{Field, HEIGHT, WIDTH};

verus! {

/// A 10x22 board of the game.
pub struct Board {
    field: Field,
    curr: Tetromino,
    hold: Option<Tetromino>,
    is_hold_locked: bool,
    shadow: Tetromino,
    next: Vec<TetrominoType>,
    is_topped_out: bool,
    score: usize,
    level: usize,
    cleared: usize,
}

impl View for Board {
    type V = BoardView;

    closed spec fn view(&self) -> BoardView {
        BoardView {
            grid: grid_of(self.field),
            curr: self.curr@,
            shadow: self.shadow@,
            hold: match self.hold {
                Some(held) => Some(held@),
                None => None,
            },
            hold_locked: self.is_hold_locked,
            next: self.next@,
            topped_out: self.is_topped_out,
            score: self.score as nat,
            level: self.level as nat,
            cleared: self.cleared as nat,
        }
    }
}

impl Board {
    /// Determines if a position is one of the cells of the current
    /// Tetromino.
    fn overlaps_active(&self, new: Point) -> (b: bool)
        requires
            near(self@.curr),
        ensures
            b == self@.curr.covers(new@.x, new@.y),
    {
        let mut i: usize = 0;
        while i < MINOS
            invariant
                i <= MINOS,
                near(self@.curr),
                !self@.curr.covers_with(i as int, new@.x, new@.y),
            decreases MINOS - i,
        {
            let pos = cell_of(&self.curr, i);
            if new == pos {
                return true;
            }
            i += 1;
        }
        false
    }

    /// Determines if a position is a legal destination for the current
    /// Tetromino: on the grid, and either free or one of its own cells.
    fn admits_at(&self, pos: Point) -> (b: bool)
        requires
            near(self@.curr),
        ensures
            b == admits(self@.grid, self@.curr, pos@.x, pos@.y),
    {
        if pos.x < 0 || pos.y < 0 || (pos.x as usize) >= WIDTH || (pos.y as usize) >= HEIGHT {
            return false;
        }
        match get(&self.field, pos.x as usize, pos.y as usize) {
            Some(TetrominoType::Shadow) | None => true,
            Some(_) => self.overlaps_active(pos),
        }
    }

    /// Determines if an offset to the current Tetromino is possible or not.
    fn is_moveable(&self, offset: Point) -> (b: bool)
        requires
            near(self@.curr),
            -2 <= offset.x <= 2,
            -2 <= offset.y <= 2,
        ensures
            b == fits(self@.grid, self@.curr, self@.curr.shifted(offset@.x, offset@.y)),
    {
        let ghost q = self@.curr.shifted(offset@.x, offset@.y);
        proof {
            lemma_fits_cell_by_cell(self@.grid, self@.curr, q);
        }
        let mut i: usize = 0;
        while i < MINOS
            invariant
                i <= MINOS,
                near(self@.curr),
                -2 <= offset.x <= 2,
                -2 <= offset.y <= 2,
                q == self@.curr.shifted(offset@.x, offset@.y),
                forall|k: int|
                    0 <= k < i ==> admits(
                        self@.grid,
                        self@.curr,
                        (#[trigger] q.cell(k)).x,
                        q.cell(k).y,
                    ),
            decreases MINOS - i,
        {
            let pos = cell_of(&self.curr, i) + offset;
            assert(pos@ == q.cell(i as int));
            if !self.admits_at(pos) {
                return false;
            }
            i += 1;
        }
        true
    }

    /// Determines if the landing preview can be moved down.
    fn is_ghost_moveable(&self) -> (b: bool)
        requires
            near(self@.curr),
            near(self@.shadow),
        ensures
            b == fits(self@.grid, self@.curr, self@.shadow.shifted(0, 1)),
    {
        let ghost q = self@.shadow.shifted(0, 1);
        proof {
            lemma_fits_cell_by_cell(self@.grid, self@.curr, q);
        }
        let mut i: usize = 0;
        while i < MINOS
            invariant
                i <= MINOS,
                near(self@.curr),
                near(self@.shadow),
                q == self@.shadow.shifted(0, 1),
                forall|k: int|
                    0 <= k < i ==> admits(
                        self@.grid,
                        self@.curr,
                        (#[trigger] q.cell(k)).x,
                        q.cell(k).y,
                    ),
            decreases MINOS - i,
        {
            let pos = cell_of(&self.shadow, i) + Point::new(0, 1);
            assert(pos@ == q.cell(i as int));
            if !self.admits_at(pos) {
                return false;
            }
            i += 1;
        }
        true
    }

    /// Removes a Tetromino from the field.
    fn remove(&mut self, tetromino: Tetromino)
        requires
            boxed(tetromino@),
            inside(tetromino@),
        ensures
            final(self)@ == (BoardView {
                grid: stamp(old(self)@.grid, tetromino@, MINOS as int, None),
                ..old(self)@
            }),
    {
        paint(&mut self.field, &tetromino, None);
    }

    /// Performs the actual movement: the piece leaves its cells and takes
    /// those that lie at the offset from them.
    fn do_move(&mut self, offset: Point)
        requires
            near(old(self)@.curr),
            inside(old(self)@.curr),
            inside(old(self)@.curr.shifted(offset@.x, offset@.y)),
            -2 <= offset.x <= 2,
            -2 <= offset.y <= 2,
        ensures
            final(self)@ == (BoardView {
                grid: stamp(
                    stamp(old(self)@.grid, old(self)@.curr, MINOS as int, None),
                    old(self)@.curr.shifted(offset@.x, offset@.y),
                    MINOS as int,
                    Some(old(self)@.curr.kind),
                ),
                curr: old(self)@.curr.shifted(offset@.x, offset@.y),
                ..old(self)@
            }),
    {
        paint(&mut self.field, &self.curr, None);
        let origin = self.curr.origin() + offset;
        self.curr.set_origin(origin);
        paint(&mut self.field, &self.curr, Some(self.curr.tetromino_type()));
    }

    /// Drops the landing preview beneath the current Tetromino: takes the
    /// old preview off the field if asked to, finds the lowest place the
    /// piece reaches by going straight down, and marks it.
    fn drop_ghost(&mut self, erase: bool)
        requires
            near(old(self)@.curr),
            inside(old(self)@.curr),
            erase ==> near(old(self)@.shadow) && inside(old(self)@.shadow),
        ensures
            final(self)@ == ({
                let g0 = if erase {
                    unshade(old(self)@.grid, old(self)@.shadow)
                } else {
                    old(self)@.grid
                };
                BoardView {
                    grid: shade(g0, landing(g0, old(self)@.curr), old(self)@.curr),
                    shadow: landing(g0, old(self)@.curr),
                    ..old(self)@
                }
            }),
    {
        let ghost s0 = self@;
        proof {
            lemma_grid_of_well_shaped(self.field);
        }

        // Remove the existing preview from the board
        if erase {
            let mut i: usize = 0;
            proof {
                lemma_unshade_step(s0.grid, s0.shadow, 0);
            }
            while i < MINOS
                invariant
                    i <= MINOS,
                    well_shaped(s0.grid),
                    near(s0.shadow),
                    inside(s0.shadow),
                    self@ == (BoardView {
                        grid: unshade_first(s0.grid, s0.shadow, i as int),
                        ..s0
                    }),
                decreases MINOS - i,
            {
                let pos = cell_of(&self.shadow, i);
                if let Some(TetrominoType::Shadow) = get(
                    &self.field,
                    pos.x as usize,
                    pos.y as usize,
                ) {
                    put(&mut self.field, pos.x as usize, pos.y as usize, None);
                }
                proof {
                    lemma_unshade_step(s0.grid, s0.shadow, i as int);
                }
                i += 1;
            }
        }
        let ghost g0 = self@.grid;
        let ghost p = self@.curr;

        self.shadow = Tetromino::new_ghost(&self.curr);

        // Determine the position that the preview should drop down to
        let ghost mut k: int = 0;
        proof {
            assert(p.shifted(0, 0) == p);
        }
        while self.is_ghost_moveable()
            invariant
                0 <= k,
                well_shaped(g0),
                near(p),
                inside(p),
                inside(self@.shadow),
                fall(g0, p, 0) == fall(g0, p, k),
                p == s0.curr,
                self@ == (BoardView { grid: g0, shadow: p.shifted(0, k).as_ghost(), ..s0 }),
            decreases HEIGHT - k,
        {
            let origin = self.shadow.origin() + Point::new(0, 1);
            self.shadow.set_origin(origin);
            proof {
                lemma_same_cells(
                    g0,
                    p,
                    p.shifted(0, k).as_ghost().shifted(0, 1),
                    p.shifted(0, k + 1),
                );
                k = k + 1;
            }
        }
        proof {
            lemma_same_cells(g0, p, p.shifted(0, k).as_ghost().shifted(0, 1), p.shifted(0, k + 1));
        }
        let ghost l = landing(g0, p);

        // Perform the preview drop
        let mut i: usize = 0;
        proof {
            lemma_shade_step(g0, l, p, 0);
        }
        while i < MINOS
            invariant
                i <= MINOS,
                well_shaped(g0),
                near(p),
                near(l),
                inside(l),
                self@ == (BoardView { grid: shade_first(g0, l, p, i as int), shadow: l, ..s0 }),
                p == s0.curr,
            decreases MINOS - i,
        {
            let pos = cell_of(&self.shadow, i);
            if !self.overlaps_active(pos) {
                put(&mut self.field, pos.x as usize, pos.y as usize, Some(TetrominoType::Shadow));
            }
            proof {
                lemma_shade_step(g0, l, p, i as int);
            }
            i += 1;
        }
    }

    /// Adds the current Tetromino to the field, cell by cell. A cell that is
    /// occupied ends it: the field has been topped out and the game is over.
    fn add_current(&mut self)
        requires
            near(old(self)@.curr),
            inside(old(self)@.curr),
            distinct(old(self)@.curr.minos),
        ensures
            final(self)@ == (BoardView {
                grid: stamp(
                    old(self)@.grid,
                    old(self)@.curr,
                    first_blocked(old(self)@.grid, old(self)@.curr),
                    Some(old(self)@.curr.kind),
                ),
                topped_out: old(self)@.topped_out || first_blocked(
                    old(self)@.grid,
                    old(self)@.curr,
                ) < MINOS,
                ..old(self)@
            }),
    {
        let ghost s0 = self@;
        let kind = self.curr.tetromino_type();
        proof {
            lemma_grid_of_well_shaped(self.field);
            lemma_stamp_none(s0.grid, s0.curr, Some(kind));
        }
        let mut i: usize = 0;
        let mut blocked = false;
        while i < MINOS && !blocked
            invariant
                i <= MINOS,
                well_shaped(s0.grid),
                near(s0.curr),
                inside(s0.curr),
                distinct(s0.curr.minos),
                kind == s0.curr.kind,
                blocked ==> i < MINOS && s0.grid[s0.curr.cell(i as int).y][s0.curr.cell(
                    i as int,
                ).x] is Some,
                forall|k: int|
                    0 <= k < i ==> s0.grid[(#[trigger] s0.curr.cell(k)).y][s0.curr.cell(
                        k,
                    ).x] is None,
                self@ == (BoardView {
                    grid: stamp(s0.grid, s0.curr, i as int, Some(kind)),
                    topped_out: s0.topped_out || blocked,
                    ..s0
                }),
            decreases MINOS - i + if blocked { 0int } else { 1int },
        {
            let pos = cell_of(&self.curr, i);
            proof {
                lemma_cells_differ(s0.curr, i as int);
            }
            if get(&self.field, pos.x as usize, pos.y as usize).is_some() {
                self.is_topped_out = true;
                blocked = true;
            } else {
                put(&mut self.field, pos.x as usize, pos.y as usize, Some(kind));
                proof {
                    lemma_stamp_step(s0.grid, s0.curr, i as int, Some(kind));
                }
                i += 1;
            }
        }
        proof {
            assert(s0.curr.cell(0) == s0.curr.cell(0));
            assert(s0.curr.cell(1) == s0.curr.cell(1));
            assert(s0.curr.cell(2) == s0.curr.cell(2));
            assert(s0.curr.cell(3) == s0.curr.cell(3));
            assert(first_blocked(s0.grid, s0.curr) == i);
        }
    }

    /// Lets the current Tetromino enter the field: marks its landing preview
    /// and draws the piece.
    fn land(&mut self)
        requires
            near(old(self)@.curr),
            inside(old(self)@.curr),
            distinct(old(self)@.curr.minos),
        ensures
            final(self)@ == old(self)@.enter(old(self)@.grid, old(self)@.curr),
    {
        proof {
            lemma_grid_of_well_shaped(self.field);
        }
        self.drop_ghost(false);
        self.add_current();
    }

    /// Moves the current Tetromino by an (x, y) offset, if it may.
    fn move_tetromino(&mut self, offset: Point)
        requires
            old(self)@.wf(),
            -1 <= offset.x <= 1,
            -1 <= offset.y <= 1,
        ensures
            final(self)@ == old(self)@.shift(offset@.x, offset@.y),
            final(self)@.wf(),
    {
        if self.is_topped_out {
            return ;
        }
        proof {
            lemma_in_play_cells(self@);
        }
        if self.is_moveable(offset) {
            proof {
                let q = self@.curr.shifted(offset@.x, offset@.y);
                lemma_fits_is_unblocked(self@.grid, self@.curr, q);
                lemma_replace(self@, q);
            }
            self.do_move(offset);
            self.drop_ghost(true);
        }
    }

    /// Moves the current Tetromino to the left.
    pub fn left(&mut self)
        requires
            old(self)@.wf(),
        ensures
            final(self)@ == old(self)@.shift(-1, 0),
            final(self)@.wf(),
    {
        self.move_tetromino(Point::new(-1, 0));
    }

    /// Moves the current Tetromino to the right.
    pub fn right(&mut self)
        requires
            old(self)@.wf(),
        ensures
            final(self)@ == old(self)@.shift(1, 0),
            final(self)@.wf(),
    {
        self.move_tetromino(Point::new(1, 0));
    }

    /// Moves the current Tetromino down.
    pub fn down(&mut self)
        requires
            old(self)@.wf(),
        ensures
            final(self)@ == old(self)@.shift(0, 1),
            final(self)@.wf(),
    {
        self.move_tetromino(Point::new(0, 1));
    }

    /// Rotates the current Tetromino in a specified direction. A rotation
    /// that fails leaves the board as it was.
    pub fn rotate(&mut self, dir: Direction)
        requires
            old(self)@.wf(),
        ensures
            final(self)@ == old(self)@.turn(dir),
            final(self)@.wf(),
            old(self)@.topped_out || srs::rotation(old(self)@.grid, old(self)@.curr, dir) is None
                ==> *final(self) == *old(self),
    {
        if self.is_topped_out {
            return ;
        }
        let ghost s = self@;
        proof {
            lemma_in_play_cells(s);
            srs::lemma_rotation_fits(s.grid, s.curr, dir);
        }
        match srs::rotate(&self.field, &self.curr, dir) {
            Some((field, rotated)) => {
                proof {
                    lemma_replace(s, rotated@);
                }
                self.field = field;
                self.curr = rotated;
                self.drop_ghost(true);
                assert(self@ == s.enter(s.base(), rotated@));
            },
            None => {},
        }
    }

    /// Spawns the next Tetromino in the sequence. When that was the last of
    /// the sequence, a new one takes its place: `refill` if there is one,
    /// else a freshly shuffled one. Returns the sequence that stood ready.
    fn spawn(&mut self, refill: Option<Vec<TetrominoType>>) -> (used: Ghost<Seq<TetrominoType>>)
        requires
            old(self)@.steady(),
            refill matches Some(bag) ==> is_full_bag(bag@),
        ensures
            is_full_bag(used@),
            refill matches Some(bag) ==> used@ == bag@,
            final(self)@ == old(self)@.spawn(old(self)@.grid, used@),
    {
        let ghost s0 = self@;
        let count = self.next.len();
        let kind = self.next[count - 1];
        self.next.pop();
        self.curr = Tetromino::new(Point::new(3, 0), kind, Rotation::Spawn);
        proof {
            lemma_fresh_is_inside(kind, Rotation::Spawn);
        }
        self.land();

        // All of the pieces have been picked, so reshuffle them
        let ghost ready = standby(refill);
        proof {
            lemma_all_kinds_is_full();
        }
        if self.next.len() == 0 {
            let bag = match refill {
                Some(bag) => bag,
                None => fresh_bag(),
            };
            let ghost used = bag@;
            self.next = bag;
            Ghost(used)
        } else {
            Ghost(ready)
        }
    }

    /// Determines if a specific row in the field is a complete line.
    fn is_line(&self, row: usize) -> (b: bool)
        requires
            row < HEIGHT,
        ensures
            b == is_line(self@.grid, row as int),
    {
        let mut col: usize = 0;
        while col < WIDTH
            invariant
                col <= WIDTH,
                row < HEIGHT,
                forall|x: int| 0 <= x < col ==> !vacant(#[trigger] self@.grid[row as int][x]),
            decreases WIDTH - col,
        {
            match get(&self.field, col, row) {
                Some(TetrominoType::Shadow) | None => {
                    return false;
                },
                _ => {},
            }
            col += 1;
        }
        true
    }

    /// Determines if the current Tetromino has a cell in a specific row.
    fn spans_row(&self, row: usize) -> (b: bool)
        requires
            near(self@.curr),
            row < HEIGHT,
        ensures
            b == spans(self@.curr, row as int),
    {
        let mut i: usize = 0;
        while i < MINOS
            invariant
                i <= MINOS,
                near(self@.curr),
                row < HEIGHT,
                forall|k: int| 0 <= k < i ==> (#[trigger] self@.curr.cell(k)).y != row,
            decreases MINOS - i,
        {
            let pos = cell_of(&self.curr, i);
            if pos.y >= 0 && pos.y as usize == row {
                return true;
            }
            i += 1;
        }
        assert(self@.curr.cell(0).y != row);
        assert(self@.curr.cell(1).y != row);
        assert(self@.curr.cell(2).y != row);
        assert(self@.curr.cell(3).y != row);
        false
    }

    /// Drops all rows above the given start row by drop, leaving empty rows
    /// in their place.
    fn drop_rows(&mut self, start: usize, drop: usize)
        requires
            1 <= drop,
            start + drop <= HEIGHT,
        ensures
            final(self)@ == (BoardView {
                grid: dropped(old(self)@.grid, start as int, drop as int),
                ..old(self)@
            }),
    {
        let ghost s0 = self@;
        proof {
            lemma_grid_of_well_shaped(self.field);
            lemma_grid_ext(dropping(s0.grid, start as int, drop as int, start as int), s0.grid);
        }
        let mut row: usize = start;
        while row > 0
            invariant
                row <= start,
                1 <= drop,
                start + drop <= HEIGHT,
                well_shaped(s0.grid),
                self@ == (BoardView {
                    grid: dropping(s0.grid, start as int, drop as int, row as int),
                    ..s0
                }),
            decreases row,
        {
            row -= 1;
            let moved = get_row(&self.field, row);
            set_row(&mut self.field, row + drop, moved);
            set_row(&mut self.field, row, empty_row());
            proof {
                lemma_grid_of_well_shaped(self.field);
                lemma_grid_ext(
                    self@.grid,
                    dropping(s0.grid, start as int, drop as int, row as int),
                );
            }
        }
        proof {
            lemma_grid_ext(
                dropping(s0.grid, start as int, drop as int, 0),
                dropped(s0.grid, start as int, drop as int),
            );
        }
    }

    /// Increases the score based on the number of lines cleared.
    fn score_clear(&mut self, lines: usize)
        requires
            old(self)@.score + 1200 * (old(self)@.level + 1) <= usize::MAX,
        ensures
            final(self)@ == (BoardView {
                score: old(self)@.score + line_score(lines as nat, old(self)@.level),
                ..old(self)@
            }),
    {
        // The classic formula: a base value for the number of lines, times
        // the level after these lines, counted from one.
        let points = if lines == 1 {
            40 * (self.level + 1)
        } else if lines == 2 {
            100 * (self.level + 1)
        } else if lines == 3 {
            300 * (self.level + 1)
        } else if lines == 4 {
            1200 * (self.level + 1)
        } else {
            // More than four lines cannot be cleared by one piece.
            0
        };
        self.score += points;
    }

    /// Clears any lines from the field completed by the current Tetromino.
    fn clear_lines(&mut self)
        requires
            near(old(self)@.curr),
            old(self)@.has_room_for_lines(),
            old(self)@.level == old(self)@.cleared / (LINES_PER_LEVEL as nat),
        ensures
            final(self)@ == ({
                let s = old(self)@;
                let lines = count_lines(s.grid, s.curr, HEIGHT as int);
                let cleared = s.cleared + lines;
                let level = cleared / (LINES_PER_LEVEL as nat);
                BoardView {
                    grid: collapsed(s.grid, s.curr),
                    cleared,
                    level,
                    score: s.score + line_score(lines, level),
                    ..s
                }
            }),
            count_lines(old(self)@.grid, old(self)@.curr, HEIGHT as int) <= MINOS,
    {
        let ghost s0 = self@;
        let ghost p = s0.curr;
        let ghost oy = p.origin.y;
        proof {
            lemma_grid_of_well_shaped(self.field);
            lemma_grid_ext(wiped_above(s0.grid, p, 0), s0.grid);
        }
        let mut lines: usize = 0;
        let mut top: usize = 0;
        let mut row: usize = 0;
        while row < HEIGHT
            invariant
                row <= HEIGHT,
                near(p),
                p == s0.curr,
                oy == p.origin.y,
                well_shaped(s0.grid),
                lines == count_lines(s0.grid, p, row as int),
                lines <= MINOS,
                row <= oy ==> lines == 0,
                lines <= row - oy || lines == 0,
                lines > 0 ==> top == top_line(s0.grid, p, 0) && top + lines <= row,
                lines == 0 ==> top_line(s0.grid, p, 0) == top_line(s0.grid, p, row as int),
                self@ == (BoardView { grid: wiped_above(s0.grid, p, row as int), ..s0 }),
            decreases HEIGHT - row,
        {
            if self.spans_row(row) && self.is_line(row) {
                assert(is_line(s0.grid, row as int)) by {
                    assert(self@.grid[row as int] == s0.grid[row as int]);
                }
                set_row(&mut self.field, row, empty_row());
                if lines == 0 {
                    top = row;
                }
                lines += 1;
            } else {
                assert(self@.grid[row as int] == s0.grid[row as int]);
            }
            proof {
                lemma_grid_of_well_shaped(self.field);
                lemma_grid_ext(self@.grid, wiped_above(s0.grid, p, row + 1));
            }
            row += 1;
        }
        proof {
            lemma_grid_ext(wiped_above(s0.grid, p, HEIGHT as int), wiped(s0.grid, p));
            if lines == 0 {
                lemma_no_lines(s0.grid, p, HEIGHT as int);
                lemma_grid_ext(wiped(s0.grid, p), s0.grid);
            }
        }

        // Drop the rows if any line clears were made
        if lines > 0 {
            self.drop_rows(top, lines);
            self.cleared += lines;
            self.level = self.cleared / LINES_PER_LEVEL;
            self.score_clear(lines);
        }
    }

    /// Lets the current Tetromino, which cannot go down, come to rest: clears
    /// the lines it completed and spawns the next piece.
    fn lock(&mut self, refill: Option<Vec<TetrominoType>>) -> (used: Ghost<Seq<TetrominoType>>)
        requires
            old(self)@.wf(),
            !old(self)@.topped_out,
            !old(self)@.can_shift(0, 1),
            old(self)@.has_room_for_lines(),
            refill matches Some(bag) ==> is_full_bag(bag@),
        ensures
            is_full_bag(used@),
            refill matches Some(bag) ==> used@ == bag@,
            final(self)@ == old(self)@.lock(used@),
            final(self)@.wf(),
    {
        proof {
            lemma_in_play_cells(self@);
            lemma_at_rest(self@);
        }
        self.is_hold_locked = false;
        self.clear_lines();
        let used = self.spawn(refill);
        proof {
            lemma_lock_wf(old(self)@, used@);
        }
        used
    }

    /// Applies gravity to the field.
    fn apply_gravity(&mut self, refill: Option<Vec<TetrominoType>>) -> (used: Ghost<
        Seq<TetrominoType>,
    >)
        requires
            old(self)@.wf(),
            old(self)@.can_fall(),
            refill matches Some(bag) ==> is_full_bag(bag@),
        ensures
            is_full_bag(used@),
            refill matches Some(bag) ==> used@ == bag@,
            final(self)@ == old(self)@.tick(used@),
            final(self)@.wf(),
    {
        proof {
            lemma_all_kinds_is_full();
        }
        if self.is_topped_out {
            return Ghost(standby(refill));
        }
        proof {
            lemma_in_play_cells(self@);
        }
        let offset = Point::new(0, 1);
        if self.is_moveable(offset) {
            proof {
                lemma_replace(self@, self@.curr.shifted(0, 1));
            }
            self.do_move(offset);
            self.drop_ghost(true);
            self.score += SOFT_DROP;
            Ghost(standby(refill))
        } else {
            self.lock(refill)
        }
    }

    /// Applies gravity and clears any lines. When the draw sequence runs
    /// out, a freshly shuffled one takes its place.
    pub fn tick(&mut self)
        requires
            old(self)@.wf(),
            old(self)@.can_fall(),
        ensures
            exists|refill: Seq<TetrominoType>|
                is_full_bag(refill) && final(self)@ == old(self)@.tick(refill),
            final(self)@.wf(),
    {
        let used = self.apply_gravity(None);
        assert(is_full_bag(used@) && self@ == old(self)@.tick(used@));
    }

    /// Applies gravity and clears any lines. When the draw sequence runs
    /// out, `refill` takes its place.
    pub fn tick_with(&mut self, refill: Vec<TetrominoType>)
        requires
            old(self)@.wf(),
            old(self)@.can_fall(),
            is_full_bag(refill@),
        ensures
            final(self)@ == old(self)@.tick(refill@),
            final(self)@.wf(),
    {
        let _ = self.apply_gravity(Some(refill));
    }

    /// Drops the current Tetromino as far as it goes and lets it come to
    /// rest.
    fn hard_drop(&mut self, refill: Option<Vec<TetrominoType>>) -> (used: Ghost<
        Seq<TetrominoType>,
    >)
        requires
            old(self)@.wf(),
            old(self)@.can_fall(),
            refill matches Some(bag) ==> is_full_bag(bag@),
        ensures
            is_full_bag(used@),
            refill matches Some(bag) ==> used@ == bag@,
            final(self)@ == old(self)@.hard_drop(used@),
            final(self)@.wf(),
    {
        proof {
            lemma_all_kinds_is_full();
        }
        if self.is_topped_out {
            return Ghost(standby(refill));
        }
        let ghost s0 = self@;
        let ghost mut j: int = 0;
        proof {
            lemma_descent_starts(s0);
        }
        while self.is_moveable(Point::new(0, 1))
            invariant
                s0.has_headroom(),
                0 <= j <= s0.drop_height() < HEIGHT,
                descended(s0, j, self@),
                self@.score == s0.score + HARD_DROP * j,
                near(self@.curr),
                inside(self@.curr),
                near(self@.shadow),
                inside(self@.shadow),
            decreases s0.drop_height() - j,
        {
            proof {
                lemma_descent_goes_on(s0, j, self@, self@.score + HARD_DROP as nat);
            }
            self.do_move(Point::new(0, 1));
            self.drop_ghost(true);
            self.score += HARD_DROP;
            proof {
                j = j + 1;
            }
        }
        proof {
            lemma_descent_ends(s0, j, self@);
        }
        self.lock(refill)
    }

    /// Continually drops the current Tetromino until it locks. When the
    /// draw sequence runs out, a freshly shuffled one takes its place.
    pub fn drop_tetromino(&mut self)
        requires
            old(self)@.wf(),
            old(self)@.can_fall(),
        ensures
            exists|refill: Seq<TetrominoType>|
                is_full_bag(refill) && final(self)@ == old(self)@.hard_drop(refill),
            final(self)@.wf(),
    {
        let used = self.hard_drop(None);
        assert(is_full_bag(used@) && self@ == old(self)@.hard_drop(used@));
    }

    /// Continually drops the current Tetromino until it locks. When the
    /// draw sequence runs out, `refill` takes its place.
    pub fn drop_tetromino_with(&mut self, refill: Vec<TetrominoType>)
        requires
            old(self)@.wf(),
            old(self)@.can_fall(),
            is_full_bag(refill@),
        ensures
            final(self)@ == old(self)@.hard_drop(refill@),
            final(self)@.wf(),
    {
        let _ = self.hard_drop(Some(refill));
    }

    /// Moves the current Tetromino into hold and lets the piece that was
    /// there, or else the next of the sequence, enter in its place.
    fn swap_hold(&mut self, refill: Option<Vec<TetrominoType>>) -> (used: Ghost<
        Seq<TetrominoType>,
    >)
        requires
            old(self)@.wf(),
            refill matches Some(bag) ==> is_full_bag(bag@),
        ensures
            is_full_bag(used@),
            refill matches Some(bag) ==> used@ == bag@,
            final(self)@ == old(self)@.swap_hold(used@),
            final(self)@.wf(),
    {
        proof {
            lemma_all_kinds_is_full();
        }
        if self.is_topped_out || self.is_hold_locked {
            return Ghost(standby(refill));
        }
        let ghost s0 = self@;
        proof {
            lemma_in_play_cells(s0);
            lemma_lift(s0);
            lemma_settled_is_bare(s0.grid, s0.curr);
        }
        let curr = self.curr;
        let shadow = self.shadow;

        self.remove(curr);
        self.remove(shadow);

        self.curr.set_origin(Point::new(3, 0));

        let used = match self.hold {
            Some(held) => {
                let temp = Some(self.curr);
                self.curr = held;
                self.hold = temp;
                proof {
                    lemma_fresh_is_inside(held@.kind, held@.rot);
                    assert(held@ == Piece::fresh(spawn_pos(), held@.kind, held@.rot));
                    lemma_enter_wf(
                        BoardView {
                            hold: Some(s0.curr.at(spawn_pos())),
                            hold_locked: true,
                            ..s0
                        },
                        s0.base(),
                        held@,
                    );
                }
                self.land();
                Ghost(standby(refill))
            },
            None => {
                self.hold = Some(self.curr);
                let used = self.spawn(refill);
                proof {
                    lemma_spawn_wf(
                        BoardView {
                            hold: Some(s0.curr.at(spawn_pos())),
                            hold_locked: true,
                            ..s0
                        },
                        s0.base(),
                        used@,
                    );
                }
                used
            },
        };

        self.is_hold_locked = true;
        used
    }

    /// Moves the current Tetromino into hold. When the draw sequence runs
    /// out, a freshly shuffled one takes its place.
    pub fn hold_tetromino(&mut self)
        requires
            old(self)@.wf(),
        ensures
            exists|refill: Seq<TetrominoType>|
                is_full_bag(refill) && final(self)@ == old(self)@.swap_hold(refill),
            final(self)@.wf(),
    {
        let used = self.swap_hold(None);
        assert(is_full_bag(used@) && self@ == old(self)@.swap_hold(used@));
    }

    /// Moves the current Tetromino into hold. When the draw sequence runs
    /// out, `refill` takes its place.
    pub fn hold_tetromino_with(&mut self, refill: Vec<TetrominoType>)
        requires
            old(self)@.wf(),
            is_full_bag(refill@),
        ensures
            final(self)@ == old(self)@.swap_hold(refill@),
            final(self)@.wf(),
    {
        let _ = self.swap_hold(Some(refill));
    }

    /// Initializes a new Board: an empty field, a freshly shuffled draw
    /// sequence, and its first piece on the field.
    pub fn new() -> (board: Board)
        ensures
            exists|bag: Seq<TetrominoType>|
                is_full_bag(bag) && board@ == BoardView::start(blank(), bag),
            board@.wf(),
            !board@.topped_out,
    {
        // Create a sequence of pieces and shuffle them
        let next = fresh_bag();
        let ghost bag = next@;
        let field = blank_field();
        proof {
            lemma_grid_ext(strip(blank()), blank());
            lemma_fresh_is_inside(bag.last(), Rotation::Spawn);
        }
        let board = Board::with_field(field, next);
        assert(is_full_bag(bag) && board@ == BoardView::start(blank(), bag));
        board
    }

    /// Initializes a Board on a given field with a given draw sequence: the
    /// field without its preview markers is the settled geometry, and the
    /// last kind of the sequence is the first piece to enter.
    pub fn with_field(field: Field, bag: Vec<TetrominoType>) -> (board: Board)
        requires
            is_bag(bag@),
            bag@.len() >= 2,
        ensures
            board@ == BoardView::start(strip(grid_of(field)), bag@),
            board@.wf(),
    {
        let mut field = field;
        strip_field(&mut field);
        let ghost base = grid_of(field);
        let mut next = bag;
        let count = next.len();
        let kind = next[count - 1];
        next.pop();
        let tetromino = Tetromino::new(Point::new(3, 0), kind, Rotation::Spawn);
        let mut board = Board {
            field,
            curr: tetromino,
            hold: None,
            is_hold_locked: false,
            shadow: Tetromino::new_ghost(&tetromino),
            next,
            is_topped_out: false,
            score: 0,
            level: 0,
            cleared: 0,
        };
        proof {
            lemma_fresh_is_inside(kind, Rotation::Spawn);
            lemma_grid_of_well_shaped(field);
            lemma_grid_ext(strip(base), base);
            lemma_start_wf(base, bag@);
        }
        board.land();
        board
    }

    /// Tells whether the board can take a step of gravity or a hard drop:
    /// whether the game is over, or else the counters have room for what
    /// such a move can add to them.
    pub fn can_fall(&self) -> (b: bool)
        ensures
            b == self@.can_fall(),
    {
        self.is_topped_out || self.has_headroom()
    }

    /// Tells whether the counters have room for the most that one move can
    /// add to them. A board that has not is at the end of what it can count.
    pub fn has_headroom(&self) -> (b: bool)
        ensures
            b == self@.has_headroom(),
    {
        if self.cleared > usize::MAX - MINOS {
            return false;
        }
        let level = (self.cleared + MINOS) / LINES_PER_LEVEL + 1;
        match level.checked_mul(1200) {
            None => false,
            Some(points) => match points.checked_add(HARD_DROP * HEIGHT) {
                None => false,
                Some(gain) => self.score.checked_add(gain).is_some(),
            },
        }
    }

    /// Peeks at the next Tetromino.
    pub fn peek_next(&self) -> (piece: Tetromino)
        requires
            self@.wf(),
        ensures
            piece@ == Piece::fresh(spawn_pos(), self@.next.last(), Rotation::Spawn),
            piece@.is_playable(),
            boxed(piece@),
            inside(piece@),
    {
        let kind = self.next[self.next.len() - 1];
        proof {
            lemma_fresh_is_inside(kind, Rotation::Spawn);
        }
        Tetromino::new(Point::new(3, 0), kind, Rotation::Spawn)
    }

    pub fn field(&self) -> (field: Field)
        ensures
            grid_of(field) == self@.grid,
    {
        self.field
    }

    pub fn hold(&self) -> (held: Option<Tetromino>)
        ensures
            match held {
                Some(piece) => self@.hold == Some(piece@),
                None => self@.hold is None,
            },
    {
        self.hold
    }

    pub fn is_topped_out(&self) -> (topped_out: bool)
        ensures
            topped_out == self@.topped_out,
    {
        self.is_topped_out
    }

    pub fn score(&self) -> (score: usize)
        ensures
            score == self@.score,
    {
        self.score
    }

    pub fn level(&self) -> (level: usize)
        ensures
            level == self@.level,
    {
        self.level
    }

    pub fn cleared(&self) -> (cleared: usize)
        ensures
            cleared == self@.cleared,
    {
        self.cleared
    }
}

} // verus!
