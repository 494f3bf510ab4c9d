//! The user interface: five windows side by side, and what each of them
//! shows of a game. Like the windows, it draws nothing itself: it gives the
//! characters to show.

use crate::board::{Board, HEIGHT, WIDTH};
use crate::grid::{get, grid_of, Grid};
use crate::tetromino::{boxed, Piece, Tetromino, TetrominoType, MINOS};
use crate::window::{Color, Glyph, Style, Window};
use vstd::prelude::*;

verus! {

/// Screen columns that one cell of the board takes.
pub const SCALE: usize = 2;

/// Rows at the top of the board that are not shown: pieces enter there.
pub const HIDDEN: usize = 2;

/// The character that shows an occupied cell.
pub const BLOCK: char = '\u{25a0}';

/// The character that shows the landing preview.
pub const HOLLOW: char = '\u{25a1}';

/// The character that marks an empty cell.
pub const DOT: char = '.';

/// The look of everything that has no color of its own.
pub const DEFAULT_STYLE: Style = Style::Normal;

pub const DEFAULT_FG: Color = Color::White;

pub const DEFAULT_BG: Color = Color::Black;

/// A collection of Window structs representing the user interface.
pub struct Ui {
    board: Window,
    score: Window,
    level: Window,
    lines: Window,
    next_piece: Window,
}

/// Where the windows of the user interface lie.
pub struct Layout {
    pub board: Window,
    pub score: Window,
    pub level: Window,
    pub lines: Window,
    pub next_piece: Window,
}

impl View for Ui {
    type V = Layout;

    closed spec fn view(&self) -> Layout {
        Layout {
            board: self.board,
            score: self.score,
            level: self.level,
            lines: self.lines,
            next_piece: self.next_piece,
        }
    }
}

/// The layout of the game: the board on the left, and to its right, from
/// the top down, the score, the level, the lines and the next piece.
pub open spec fn standard() -> Layout {
    Layout {
        board: Window { x: 0, y: 0, w: 21, h: 21 },
        score: Window { x: 24, y: 0, w: 11, h: 2 },
        level: Window { x: 24, y: 4, w: 11, h: 2 },
        lines: Window { x: 24, y: 8, w: 11, h: 2 },
        next_piece: Window { x: 24, y: 12, w: 11, h: 6 },
    }
}

/// The color in which a kind of piece is shown.
pub open spec fn color_of(kind: TetrominoType) -> Color {
    match kind {
        TetrominoType::I => Color::Cyan,
        TetrominoType::J => Color::Blue,
        TetrominoType::L => Color::White,
        TetrominoType::O => Color::Yellow,
        TetrominoType::S => Color::Green,
        TetrominoType::T => Color::Magenta,
        TetrominoType::Z => Color::Red,
        TetrominoType::Shadow => DEFAULT_FG,
    }
}

/// The character with which a cell of a kind is shown.
pub open spec fn block_of(kind: TetrominoType) -> char {
    match kind {
        TetrominoType::Shadow => HOLLOW,
        _ => BLOCK,
    }
}

/// What the cell `(x, y)` of the board shows in a window: two characters
/// side by side, one row up for each hidden row. An occupied cell shows its
/// block twice in the color of its kind, an empty one a blank and a dot.
pub open spec fn cell_shown(win: Window, cell: Option<TetrominoType>, x: int, y: int) -> Seq<
    Glyph,
> {
    match cell {
        Some(kind) => win.shown(
            x * SCALE + 1,
            y - 1,
            DEFAULT_STYLE,
            color_of(kind),
            DEFAULT_BG,
            block_of(kind),
        ) + win.shown(
            x * SCALE + 2,
            y - 1,
            DEFAULT_STYLE,
            color_of(kind),
            DEFAULT_BG,
            block_of(kind),
        ),
        None => win.shown(x * SCALE + 1, y - 1, DEFAULT_STYLE, DEFAULT_FG, DEFAULT_BG, ' ')
            + win.shown(x * SCALE + 2, y - 1, DEFAULT_STYLE, DEFAULT_FG, DEFAULT_BG, DOT),
    }
}

/// What the first `n` cells of the shown rows of the board show in a
/// window, row by row from the first shown row, each row from left to
/// right.
pub open spec fn cells_shown(win: Window, g: Grid, n: int) -> Seq<Glyph>
    decreases n,
{
    if n <= 0 {
        Seq::empty()
    } else {
        let k = n - 1;
        let x = k % (WIDTH as int);
        let y = HIDDEN + k / (WIDTH as int);
        cells_shown(win, g, n - 1) + cell_shown(win, g[y][x], x, y)
    }
}

/// The blanks that clear the inside of the first `rows` rows of column `x`
/// of a window.
pub open spec fn inside_column(win: Window, x: int, rows: int) -> Seq<Glyph>
    decreases rows,
{
    if rows <= 1 {
        Seq::empty()
    } else {
        inside_column(win, x, rows - 1) + win.shown(
            x,
            rows - 1,
            DEFAULT_STYLE,
            DEFAULT_FG,
            DEFAULT_BG,
            ' ',
        )
    }
}

/// The blanks that clear the inside of the first `cols` columns of a
/// window, column by column.
pub open spec fn inside_shown(win: Window, cols: int) -> Seq<Glyph>
    decreases cols,
{
    if cols <= 1 {
        Seq::empty()
    } else {
        inside_shown(win, cols - 1) + inside_column(win, cols - 1, win.h as int)
    }
}

/// What the first `n` cells of a piece show in the window of the next
/// piece: each cell a block in the color of its kind, four columns and two
/// rows from the corner of the window.
pub open spec fn minos_shown(win: Window, p: Piece, n: int) -> Seq<Glyph>
    decreases n,
{
    if n <= 0 {
        Seq::empty()
    } else {
        minos_shown(win, p, n - 1) + win.shown(
            p.minos[n - 1].x + 4,
            p.minos[n - 1].y + 2,
            DEFAULT_STYLE,
            color_of(p.kind),
            DEFAULT_BG,
            BLOCK,
        )
    }
}

/// The character of a digit.
pub open spec fn digit(d: int) -> char {
    if d == 0 {
        '0'
    } else if d == 1 {
        '1'
    } else if d == 2 {
        '2'
    } else if d == 3 {
        '3'
    } else if d == 4 {
        '4'
    } else if d == 5 {
        '5'
    } else if d == 6 {
        '6'
    } else if d == 7 {
        '7'
    } else if d == 8 {
        '8'
    } else {
        '9'
    }
}

/// A number written out in decimal digits, the highest first.
pub open spec fn digits(n: nat) -> Seq<char>
    decreases n,
{
    if n < 10 {
        seq![digit(n as int)]
    } else {
        digits(n / 10).push(digit((n % 10) as int))
    }
}

impl Layout {
    /// Every window lies where screen positions can be counted.
    pub open spec fn on_screen(self) -> bool {
        &&& self.board.on_screen()
        &&& self.score.on_screen()
        &&& self.level.on_screen()
        &&& self.lines.on_screen()
        &&& self.next_piece.on_screen()
    }

    /// The borders of all the windows.
    pub open spec fn frame(self) -> Seq<Glyph> {
        self.board.border(DEFAULT_STYLE, DEFAULT_FG, DEFAULT_BG) + self.score.border(
            DEFAULT_STYLE,
            DEFAULT_FG,
            DEFAULT_BG,
        ) + self.level.border(DEFAULT_STYLE, DEFAULT_FG, DEFAULT_BG) + self.lines.border(
            DEFAULT_STYLE,
            DEFAULT_FG,
            DEFAULT_BG,
        ) + self.next_piece.border(DEFAULT_STYLE, DEFAULT_FG, DEFAULT_BG)
    }

    /// What the board window shows of a grid: its shown rows, cell by cell.
    pub open spec fn board_shown(self, g: Grid) -> Seq<Glyph> {
        cells_shown(self.board, g, (HEIGHT - HIDDEN) * WIDTH)
    }

    /// What the window of the next piece shows of a piece: its inside
    /// cleared, then the four cells of the piece.
    pub open spec fn next_shown(self, p: Piece) -> Seq<Glyph> {
        inside_shown(self.next_piece, self.next_piece.w as int) + minos_shown(
            self.next_piece,
            p,
            MINOS as int,
        )
    }

    /// What a window shows of a number: its decimal digits, one column and
    /// one row from the corner of the window.
    pub open spec fn number_shown(win: Window, n: nat) -> Seq<Glyph> {
        win.text(1, 1, DEFAULT_STYLE, DEFAULT_FG, DEFAULT_BG, digits(n))
    }
}

/// Gives the character of a digit.
fn digit_char(d: usize) -> (c: char)
    requires
        d < 10,
    ensures
        c == digit(d as int),
{
    if d == 0 {
        '0'
    } else if d == 1 {
        '1'
    } else if d == 2 {
        '2'
    } else if d == 3 {
        '3'
    } else if d == 4 {
        '4'
    } else if d == 5 {
        '5'
    } else if d == 6 {
        '6'
    } else if d == 7 {
        '7'
    } else if d == 8 {
        '8'
    } else {
        '9'
    }
}

/// Writes a number out in decimal digits.
pub fn decimal(n: usize) -> (text: Vec<char>)
    ensures
        text@ == digits(n as nat),
    decreases n,
{
    if n < 10 {
        let mut text: Vec<char> = Vec::new();
        text.push(digit_char(n));
        assert(text@ =~= digits(n as nat));
        text
    } else {
        let mut text = decimal(n / 10);
        text.push(digit_char(n % 10));
        text
    }
}

impl Ui {
    /// Initializes a new Ui: the windows in the layout of the game.
    pub fn new() -> (ui: Ui)
        ensures
            ui@ == standard(),
            ui@.on_screen(),
    {
        Ui {
            board: Window::new(0, 0, (11 * SCALE) - 1, 21),
            score: Window::new(12 * SCALE, 0, 11, 2),
            level: Window::new(12 * SCALE, 4, 11, 2),
            lines: Window::new(12 * SCALE, 8, 11, 2),
            next_piece: Window::new(12 * SCALE, 12, 11, 6),
        }
    }

    /// Setup the default elements of the user interface: gives the borders
    /// of the windows.
    pub fn setup(&self) -> (glyphs: Vec<Glyph>)
        requires
            self@.on_screen(),
        ensures
            glyphs@ == self@.frame(),
    {
        // Print out the borders for the player stats
        let mut glyphs = self.board.print_borders(DEFAULT_STYLE, DEFAULT_FG, DEFAULT_BG);
        let mut more = self.score.print_borders(DEFAULT_STYLE, DEFAULT_FG, DEFAULT_BG);
        glyphs.append(&mut more);
        let mut more = self.level.print_borders(DEFAULT_STYLE, DEFAULT_FG, DEFAULT_BG);
        glyphs.append(&mut more);
        let mut more = self.lines.print_borders(DEFAULT_STYLE, DEFAULT_FG, DEFAULT_BG);
        glyphs.append(&mut more);
        let mut more = self.next_piece.print_borders(DEFAULT_STYLE, DEFAULT_FG, DEFAULT_BG);
        glyphs.append(&mut more);
        glyphs
    }

    /// Print the state of the board: gives what its shown rows look like.
    pub fn print_board(&self, board: &Board) -> (glyphs: Vec<Glyph>)
        requires
            self@.on_screen(),
        ensures
            glyphs@ == self@.board_shown(board@.grid),
    {
        let field = board.field();
        let ghost g = board@.grid;
        let mut glyphs: Vec<Glyph> = Vec::new();

        // Start below the hidden rows: only the others are displayed
        let mut y: usize = HIDDEN;
        while y < HEIGHT
            invariant
                HIDDEN <= y <= HEIGHT,
                self@.on_screen(),
                grid_of(field) == g,
                glyphs@ == cells_shown(self@.board, g, (y - HIDDEN) * WIDTH),
            decreases HEIGHT - y,
        {
            let mut x: usize = 0;
            while x < WIDTH
                invariant
                    x <= WIDTH,
                    HIDDEN <= y < HEIGHT,
                    self@.on_screen(),
                    grid_of(field) == g,
                    glyphs@ == cells_shown(self@.board, g, (y - HIDDEN) * WIDTH + x),
                decreases WIDTH - x,
            {
                let ghost n = (y - HIDDEN) * WIDTH + x;
                assert(n % (WIDTH as int) == x && HIDDEN + n / (WIDTH as int) == y);
                match get(&field, x, y) {
                    // When printing the board, offset x and y to compensate
                    // for the Window's borders and the hidden rows
                    Some(mino) => {
                        let color = self.get_tetromino_color(&mino);
                        let block = if mino == TetrominoType::Shadow {
                            HOLLOW
                        } else {
                            BLOCK
                        };
                        self.board.draw_char(
                            &mut glyphs,
                            (x * SCALE) + 1,
                            y - 1,
                            DEFAULT_STYLE,
                            color,
                            DEFAULT_BG,
                            block,
                        );
                        self.board.draw_char(
                            &mut glyphs,
                            (x * SCALE) + 2,
                            y - 1,
                            DEFAULT_STYLE,
                            color,
                            DEFAULT_BG,
                            block,
                        );
                    },
                    None => {
                        self.board.draw_char(
                            &mut glyphs,
                            (x * SCALE) + 1,
                            y - 1,
                            DEFAULT_STYLE,
                            DEFAULT_FG,
                            DEFAULT_BG,
                            ' ',
                        );
                        self.board.draw_char(
                            &mut glyphs,
                            (x * SCALE) + 2,
                            y - 1,
                            DEFAULT_STYLE,
                            DEFAULT_FG,
                            DEFAULT_BG,
                            DOT,
                        );
                    },
                }
                assert(glyphs@ =~= cells_shown(self@.board, g, n) + cell_shown(
                    self@.board,
                    g[y as int][x as int],
                    x as int,
                    y as int,
                ));
                x += 1;
            }
            y += 1;
        }
        glyphs
    }

    /// Get the color associated with a TetrominoType.
    pub fn get_tetromino_color(&self, tetromino_type: &TetrominoType) -> (color: Color)
        ensures
            color == color_of(*tetromino_type),
    {
        match tetromino_type {
            TetrominoType::I => Color::Cyan,
            TetrominoType::J => Color::Blue,
            TetrominoType::L => Color::White,
            TetrominoType::O => Color::Yellow,
            TetrominoType::S => Color::Green,
            TetrominoType::T => Color::Magenta,
            TetrominoType::Z => Color::Red,
            TetrominoType::Shadow => DEFAULT_FG,
        }
    }

    /// Print the next Tetromino: gives the cleared inside of its window and
    /// the cells of the piece.
    pub fn print_next(&self, tetromino: Tetromino) -> (glyphs: Vec<Glyph>)
        requires
            self@.on_screen(),
            boxed(tetromino@),
        ensures
            glyphs@ == self@.next_shown(tetromino@),
    {
        let mut glyphs: Vec<Glyph> = Vec::new();
        let win = self.next_piece;
        let mut i: usize = 1;
        while i < win.w
            invariant
                1 <= i,
                i <= win.w || i == 1,
                win.on_screen(),
                glyphs@ == inside_shown(win, i as int),
            decreases win.w - i,
        {
            let ghost before = glyphs@;
            let mut j: usize = 1;
            while j < win.h
                invariant
                    1 <= j,
                    j <= win.h || j == 1,
                    1 <= i < win.w,
                    win.on_screen(),
                    glyphs@ == before + inside_column(win, i as int, j as int),
                decreases win.h - j,
            {
                win.draw_char(&mut glyphs, i, j, DEFAULT_STYLE, DEFAULT_FG, DEFAULT_BG, ' ');
                j += 1;
            }
            proof {
                if win.h <= 1 {
                    assert(inside_column(win, i as int, win.h as int) =~= inside_column(
                        win,
                        i as int,
                        1,
                    ));
                }
            }
            i += 1;
        }
        proof {
            if win.w <= 1 {
                assert(inside_shown(win, win.w as int) =~= inside_shown(win, 1));
            }
        }
        let ghost cleared = glyphs@;

        let minos = tetromino.minos();
        let color = self.get_tetromino_color(&tetromino.tetromino_type());
        let mut k: usize = 0;
        while k < MINOS
            invariant
                k <= MINOS,
                win.on_screen(),
                boxed(tetromino@),
                crate::tetromino::points_view(minos) == tetromino@.minos,
                color == color_of(tetromino@.kind),
                glyphs@ == cleared + minos_shown(win, tetromino@, k as int),
            decreases MINOS - k,
        {
            let mino = minos[k];
            assert(mino@ == tetromino@.minos[k as int]) by {
                assert(crate::tetromino::points_view(minos)[k as int] == minos[k as int]@);
            }
            win.draw_char(
                &mut glyphs,
                (mino.x + 4) as usize,
                (mino.y + 2) as usize,
                DEFAULT_STYLE,
                color,
                DEFAULT_BG,
                BLOCK,
            );
            k += 1;
        }
        glyphs
    }

    /// Print the player's score.
    pub fn print_score(&self, score: usize) -> (glyphs: Vec<Glyph>)
        requires
            self@.on_screen(),
        ensures
            glyphs@ == Layout::number_shown(self@.score, score as nat),
    {
        self.score.print(1, 1, DEFAULT_STYLE, DEFAULT_FG, DEFAULT_BG, &decimal(score))
    }

    /// Print the difficulty level.
    pub fn print_level(&self, level: usize) -> (glyphs: Vec<Glyph>)
        requires
            self@.on_screen(),
        ensures
            glyphs@ == Layout::number_shown(self@.level, level as nat),
    {
        self.level.print(1, 1, DEFAULT_STYLE, DEFAULT_FG, DEFAULT_BG, &decimal(level))
    }

    /// Print the number of lines cleared.
    pub fn print_lines(&self, lines: usize) -> (glyphs: Vec<Glyph>)
        requires
            self@.on_screen(),
        ensures
            glyphs@ == Layout::number_shown(self@.lines, lines as nat),
    {
        self.lines.print(1, 1, DEFAULT_STYLE, DEFAULT_FG, DEFAULT_BG, &decimal(lines))
    }
}

} // verus!
