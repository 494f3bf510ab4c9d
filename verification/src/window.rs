//! Windows: rectangles of the screen, and what drawing into them puts on the
//! screen. Nothing here touches a terminal: every drawing operation gives
//! the characters to show, each with its place on the screen.

use vstd::prelude::*;
use vstd::utf8::{encode_scalar, encode_utf8};

verus! {

/// The top left corner of a border.
pub const TOP_LEFT: char = '\u{250c}';

/// The top right corner of a border.
pub const TOP_RIGHT: char = '\u{2510}';

/// The bottom left corner of a border.
pub const BOTTOM_LEFT: char = '\u{2514}';

/// The bottom right corner of a border.
pub const BOTTOM_RIGHT: char = '\u{2518}';

/// The top and bottom edge of a border.
pub const ACROSS: char = '\u{2500}';

/// The left and right edge of a border.
pub const ALONG: char = '\u{2502}';

/// The colors of the terminal.
#[derive(Copy, Clone, Debug, PartialEq, Eq, Structural)]
pub enum Color {
    Black,
    Red,
    Green,
    Yellow,
    Blue,
    Magenta,
    Cyan,
    White,
}

/// The ways a character can be set off.
#[derive(Copy, Clone, Debug, PartialEq, Eq, Structural)]
pub enum Style {
    Normal,
    Bold,
    Underline,
    Reverse,
}

/// One character on the screen: where it stands, how it looks, and what it
/// is.
#[derive(Copy, Clone, Debug, PartialEq, Eq, Structural)]
pub struct Glyph {
    pub x: usize,
    pub y: usize,
    pub style: Style,
    pub fg: Color,
    pub bg: Color,
    pub ch: char,
}

/// A drawable area and element of the screen.
///
/// The origin of a Window is (0, 0) and is located at the top left. All
/// drawing operations are done relative to this coordinate position.
#[derive(Copy, Clone, Debug, PartialEq, Eq, Structural)]
pub struct Window {
    pub x: usize,
    pub y: usize,
    pub w: usize,
    pub h: usize,
}

/// The number of bytes a text takes in UTF-8.
pub open spec fn byte_len(s: Seq<char>) -> nat {
    encode_utf8(s).len()
}

/// The number of bytes that the characters of a text from character `i` on
/// take in UTF-8.
pub open spec fn bytes_from(s: Seq<char>, i: int) -> nat {
    byte_len(s.subrange(i, s.len() as int))
}

/// The bytes of a text are those of its first character and those of the
/// rest; no character takes less than one byte or more than four.
pub proof fn lemma_bytes_from(s: Seq<char>, i: int)
    requires
        0 <= i <= s.len(),
    ensures
        bytes_from(s, 0) == byte_len(s),
        i == s.len() ==> bytes_from(s, i) == 0,
        i < s.len() ==> bytes_from(s, i) == encode_scalar(s[i] as u32).len() + bytes_from(
            s,
            i + 1,
        ),
        i < s.len() ==> 1 <= encode_scalar(s[i] as u32).len() <= 4,
        s.len() - i <= bytes_from(s, i),
    decreases s.len() - i,
{
    assert(s.subrange(0, s.len() as int) =~= s);
    let tail = s.subrange(i, s.len() as int);
    if i < s.len() {
        assert(tail[0] == s[i]);
        assert(tail.drop_first() =~= s.subrange(i + 1, s.len() as int));
        lemma_bytes_from(s, i + 1);
    }
}

/// The number of bytes a character takes in UTF-8.
pub fn char_bytes(c: char) -> (n: usize)
    ensures
        n == encode_scalar(c as u32).len(),
        1 <= n <= 4,
{
    let v = c as u32;
    if v <= 0x7F {
        1
    } else if v <= 0x7FF {
        2
    } else if v <= 0xFFFF && !(0xD800 <= v && v <= 0xDFFF) {
        3
    } else {
        4
    }
}

/// Tells whether a text takes no more than `limit` bytes in UTF-8.
pub fn fits_in_bytes(s: &Vec<char>, limit: usize) -> (fits: bool)
    ensures
        fits == (byte_len(s@) <= limit),
{
    let mut i: usize = s.len();
    let mut sum: usize = 0;
    proof {
        lemma_bytes_from(s@, s@.len() as int);
    }
    while i > 0
        invariant
            i <= s.len(),
            sum == bytes_from(s@, i as int),
            sum <= limit,
        decreases i,
    {
        i -= 1;
        let n = char_bytes(s[i]);
        proof {
            lemma_bytes_from(s@, i as int);
        }
        if n > limit - sum {
            proof {
                lemma_bytes_grow(s@, 0, i as int);
                lemma_bytes_from(s@, 0);
            }
            return false;
        }
        sum += n;
    }
    proof {
        lemma_bytes_from(s@, 0);
    }
    true
}

/// A text takes no fewer bytes than any of its ends.
pub proof fn lemma_bytes_grow(s: Seq<char>, i: int, j: int)
    requires
        0 <= i <= j <= s.len(),
    ensures
        bytes_from(s, j) <= bytes_from(s, i),
    decreases j - i,
{
    if i < j {
        lemma_bytes_from(s, i);
        lemma_bytes_grow(s, i + 1, j);
    }
}

impl Window {
    /// The window lies where screen positions can be counted: its far
    /// corner has coordinates.
    pub open spec fn on_screen(self) -> bool {
        self.x + self.w <= usize::MAX && self.y + self.h <= usize::MAX
    }

    /// The position `(x, y)` of the window can be drawn on: it lies within
    /// the window or on its border.
    pub open spec fn holds(self, x: int, y: int) -> bool {
        0 <= x <= self.w && 0 <= y <= self.h
    }

    /// The character as it stands on the screen when it is drawn at the
    /// position `(x, y)` of the window.
    pub open spec fn place(self, x: int, y: int, style: Style, fg: Color, bg: Color, c: char)
        -> Glyph {
        Glyph { x: (self.x + x) as usize, y: (self.y + y) as usize, style, fg, bg, ch: c }
    }

    /// What printing a character at the position `(x, y)` of the window
    /// shows: the character, if the window holds the position.
    pub open spec fn shown(self, x: int, y: int, style: Style, fg: Color, bg: Color, c: char)
        -> Seq<Glyph> {
        if self.holds(x, y) {
            seq![self.place(x, y, style, fg, bg, c)]
        } else {
            Seq::empty()
        }
    }

    /// What printing a text from the position `(x, y)` of the window on
    /// shows: its characters one after the other in one row, if the text,
    /// counted in the bytes of its UTF-8 encoding, ends within the window.
    /// A text that is too long is not shown at all.
    pub open spec fn text(self, x: int, y: int, style: Style, fg: Color, bg: Color, s: Seq<char>)
        -> Seq<Glyph> {
        if 0 <= x && x + byte_len(s) <= self.w && 0 <= y <= self.h {
            Seq::new(s.len(), |i: int| self.place(x + i, y, style, fg, bg, s[i]))
        } else {
            Seq::empty()
        }
    }

    /// The blank that erases the position `(x, y)` of the window.
    pub open spec fn blank(self, x: int, y: int) -> Glyph {
        self.place(x, y, Style::Normal, Color::Black, Color::Black, ' ')
    }

    /// The blanks that erase column `x` of the window, from the top down.
    pub open spec fn blank_column(self, x: int) -> Seq<Glyph> {
        Seq::new(self.h as nat, |y: int| self.blank(x, y))
    }

    /// The blanks that erase the first `cols` columns of the window, column
    /// by column.
    pub open spec fn blanks(self, cols: int) -> Seq<Glyph>
        decreases cols,
    {
        if cols <= 0 {
            Seq::empty()
        } else {
            self.blanks(cols - 1) + self.blank_column(cols - 1)
        }
    }

    /// The first `n` characters of a horizontal edge in row `y` of the
    /// window, the corner not counted.
    pub open spec fn edge(self, y: int, n: int, style: Style, fg: Color, bg: Color) -> Seq<Glyph> {
        Seq::new(
            if n >= 0 {
                n as nat
            } else {
                0
            },
            |i: int| self.place(i + 1, y, style, fg, bg, ACROSS),
        )
    }

    /// The two sides of the window down the first `n` rows below the top
    /// edge: row by row, left before right.
    pub open spec fn sides(self, n: int, style: Style, fg: Color, bg: Color) -> Seq<Glyph> {
        Seq::new(
            if n >= 0 {
                (2 * n) as nat
            } else {
                0
            },
            |k: int|
                if k % 2 == 0 {
                    self.place(0, k / 2 + 1, style, fg, bg, ALONG)
                } else {
                    self.place(self.w as int, k / 2 + 1, style, fg, bg, ALONG)
                },
        )
    }

    /// The border of the window: the top edge from left to right, the two
    /// sides row by row, left before right, and the bottom edge from left
    /// to right. The corners lie on the positions `(0, 0)`, `(w, 0)`,
    /// `(0, h)` and `(w, h)` of the window.
    pub open spec fn border(self, style: Style, fg: Color, bg: Color) -> Seq<Glyph> {
        seq![self.place(0, 0, style, fg, bg, TOP_LEFT)] + self.edge(0, self.w - 1, style, fg, bg)
            + seq![self.place(self.w as int, 0, style, fg, bg, TOP_RIGHT)] + self.sides(
            self.h - 1,
            style,
            fg,
            bg,
        ) + seq![self.place(0, self.h as int, style, fg, bg, BOTTOM_LEFT)] + self.edge(
            self.h as int,
            self.w - 1,
            style,
            fg,
            bg,
        ) + seq![self.place(self.w as int, self.h as int, style, fg, bg, BOTTOM_RIGHT)]
    }

    /// Initializes a new Window at an (x, y) position with a specified
    /// width and height.
    pub fn new(x: usize, y: usize, w: usize, h: usize) -> (window: Window)
        ensures
            window == (Window { x, y, w, h }),
    {
        Window { x, y, w, h }
    }

    /// Prints a character at an (x, y) position: gives the character as it
    /// stands on the screen, or nothing if the window does not hold the
    /// position.
    pub fn print_char(
        &self,
        x: usize,
        y: usize,
        style: Style,
        fg: Color,
        bg: Color,
        c: char,
    ) -> (glyph: Option<Glyph>)
        requires
            self.on_screen(),
        ensures
            glyph == if self.holds(x as int, y as int) {
                Some(self.place(x as int, y as int, style, fg, bg, c))
            } else {
                None
            },
    {
        if x <= self.w && y <= self.h {
            Some(Glyph { x: self.x + x, y: self.y + y, style, fg, bg, ch: c })
        } else {
            None
        }
    }

    /// Prints a character at an (x, y) position after what has been drawn
    /// so far.
    pub fn draw_char(
        &self,
        drawn: &mut Vec<Glyph>,
        x: usize,
        y: usize,
        style: Style,
        fg: Color,
        bg: Color,
        c: char,
    )
        requires
            self.on_screen(),
        ensures
            final(drawn)@ == old(drawn)@ + self.shown(x as int, y as int, style, fg, bg, c),
    {
        if let Some(glyph) = self.print_char(x, y, style, fg, bg, c) {
            drawn.push(glyph);
            assert(drawn@ =~= old(drawn)@ + self.shown(x as int, y as int, style, fg, bg, c));
        } else {
            assert(drawn@ =~= old(drawn)@ + self.shown(x as int, y as int, style, fg, bg, c));
        }
    }

    /// Prints a string at an (x, y) position: gives its characters as they
    /// stand on the screen, or nothing if the text, counted in bytes, does
    /// not end within the window.
    pub fn print(
        &self,
        x: usize,
        y: usize,
        style: Style,
        fg: Color,
        bg: Color,
        s: &Vec<char>,
    ) -> (glyphs: Vec<Glyph>)
        requires
            self.on_screen(),
        ensures
            glyphs@ == self.text(x as int, y as int, style, fg, bg, s@),
    {
        let mut glyphs: Vec<Glyph> = Vec::new();
        if x <= self.w && y <= self.h && fits_in_bytes(s, self.w - x) {
            proof {
                lemma_bytes_from(s@, 0);
            }
            let mut i: usize = 0;
            while i < s.len()
                invariant
                    i <= s.len(),
                    self.on_screen(),
                    x + s.len() <= self.w,
                    y <= self.h,
                    glyphs@ == Seq::new(
                        i as nat,
                        |k: int| self.place(x + k, y as int, style, fg, bg, s@[k]),
                    ),
                decreases s.len() - i,
            {
                let ghost before = glyphs@;
                let glyph = Glyph { x: self.x + x + i, y: self.y + y, style, fg, bg, ch: s[i] };
                assert(glyph == self.place(x + i, y as int, style, fg, bg, s@[i as int]));
                glyphs.push(glyph);
                i += 1;
                assert(glyphs@.len() == i);
                assert forall|k: int| 0 <= k < i implies glyphs@[k] == self.place(
                    x + k,
                    y as int,
                    style,
                    fg,
                    bg,
                    s@[k],
                ) by {
                    if k < i - 1 {
                        assert(glyphs@[k] == before[k]);
                    }
                }
                assert(glyphs@ =~= Seq::new(
                    i as nat,
                    |k: int| self.place(x + k, y as int, style, fg, bg, s@[k]),
                ));
            }
        }
        glyphs
    }

    /// Erases a character at an (x, y) position: gives the blank that takes
    /// its place, or nothing if the window does not hold the position.
    pub fn erase(&self, x: usize, y: usize) -> (glyph: Option<Glyph>)
        requires
            self.on_screen(),
        ensures
            glyph == if self.holds(x as int, y as int) {
                Some(self.blank(x as int, y as int))
            } else {
                None
            },
    {
        self.print_char(x, y, Style::Normal, Color::Black, Color::Black, ' ')
    }

    /// Erases the area of a Window: gives the blanks that take its place,
    /// column by column.
    pub fn clear(&self) -> (glyphs: Vec<Glyph>)
        requires
            self.on_screen(),
        ensures
            glyphs@ == self.blanks(self.w as int),
    {
        let mut glyphs: Vec<Glyph> = Vec::new();
        let mut i: usize = 0;
        while i < self.w
            invariant
                i <= self.w,
                self.on_screen(),
                glyphs@ == self.blanks(i as int),
            decreases self.w - i,
        {
            let ghost before = glyphs@;
            let mut j: usize = 0;
            while j < self.h
                invariant
                    j <= self.h,
                    i < self.w,
                    self.on_screen(),
                    glyphs@ == before + Seq::new(j as nat, |y: int| self.blank(i as int, y)),
                decreases self.h - j,
            {
                if let Some(glyph) = self.erase(i, j) {
                    glyphs.push(glyph);
                }
                j += 1;
                assert(glyphs@ =~= before + Seq::new(j as nat, |y: int| self.blank(i as int, y)));
            }
            i += 1;
        }
        glyphs
    }

    /// Convenience method to print a border around the area of the Window:
    /// gives the characters of the border as they stand on the screen.
    pub fn print_borders(&self, style: Style, fg: Color, bg: Color) -> (glyphs: Vec<Glyph>)
        requires
            self.on_screen(),
        ensures
            glyphs@ == self.border(style, fg, bg),
    {
        let mut glyphs: Vec<Glyph> = Vec::new();

        // Draw the top border
        self.draw_char(&mut glyphs, 0, 0, style, fg, bg, TOP_LEFT);
        let ghost corner = glyphs@;
        let mut i: usize = 1;
        assert(glyphs@ =~= corner + self.edge(0, 0, style, fg, bg));
        while i < self.w
            invariant
                1 <= i,
                i <= self.w || i == 1,
                self.on_screen(),
                glyphs@ == corner + self.edge(0, i - 1, style, fg, bg),
            decreases self.w - i,
        {
            self.draw_char(&mut glyphs, i, 0, style, fg, bg, ACROSS);
            i += 1;
            assert(glyphs@ =~= corner + self.edge(0, i - 1, style, fg, bg));
        }
        assert(self.edge(0, i - 1, style, fg, bg) =~= self.edge(0, self.w - 1, style, fg, bg));
        self.draw_char(&mut glyphs, self.w, 0, style, fg, bg, TOP_RIGHT);
        let ghost top = glyphs@;

        // Draw the side borders
        let mut i: usize = 1;
        assert(glyphs@ =~= top + self.sides(0, style, fg, bg));
        while i < self.h
            invariant
                1 <= i,
                i <= self.h || i == 1,
                self.on_screen(),
                glyphs@ == top + self.sides(i - 1, style, fg, bg),
            decreases self.h - i,
        {
            self.draw_char(&mut glyphs, 0, i, style, fg, bg, ALONG);
            self.draw_char(&mut glyphs, self.w, i, style, fg, bg, ALONG);
            i += 1;
            assert(glyphs@ =~= top + self.sides(i - 1, style, fg, bg));
        }
        assert(self.sides(i - 1, style, fg, bg) =~= self.sides(self.h - 1, style, fg, bg));

        // Draw the bottom border
        self.draw_char(&mut glyphs, 0, self.h, style, fg, bg, BOTTOM_LEFT);
        let ghost sides = glyphs@;
        let mut i: usize = 1;
        assert(glyphs@ =~= sides + self.edge(self.h as int, 0, style, fg, bg));
        while i < self.w
            invariant
                1 <= i,
                i <= self.w || i == 1,
                self.on_screen(),
                glyphs@ == sides + self.edge(self.h as int, i - 1, style, fg, bg),
            decreases self.w - i,
        {
            self.draw_char(&mut glyphs, i, self.h, style, fg, bg, ACROSS);
            i += 1;
            assert(glyphs@ =~= sides + self.edge(self.h as int, i - 1, style, fg, bg));
        }
        assert(self.edge(self.h as int, i - 1, style, fg, bg) =~= self.edge(
            self.h as int,
            self.w - 1,
            style,
            fg,
            bg,
        ));
        self.draw_char(&mut glyphs, self.w, self.h, style, fg, bg, BOTTOM_RIGHT);
        glyphs
    }
}

} // verus!
