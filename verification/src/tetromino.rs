//! Pieces: their kinds, rotation states and the four cells each one covers.

use vstd::prelude::*;

verus! {

/// Number of cells in every piece.
pub const MINOS: usize = 4;

/// Number of kinds a player can be dealt.
pub const TYPES: usize = 7;

/// Number of rotation states.
pub const ROTS: usize = 4;

/// A position on the grid, or an offset between two positions, as exact
/// integers. `x` grows to the right and `y` grows downwards.
pub struct Pos {
    pub x: int,
    pub y: int,
}

/// A position on the grid, or an offset between two positions. `x` grows to
/// the right and `y` grows downwards.
#[derive(Copy, Clone, Debug, PartialEq, Eq, Structural)]
pub struct Point {
    pub x: isize,
    pub y: isize,
}

/// The tag a grid cell carries: one of the seven kinds a player is dealt, or
/// the marker of the landing preview.
#[derive(Copy, Clone, Debug, PartialEq, Eq, Structural)]
pub enum TetrominoType {
    I,
    J,
    L,
    O,
    S,
    T,
    Z,
    Shadow,
}

/// The four rotation states, in clockwise order.
#[derive(Copy, Clone, Debug, PartialEq, Eq, Hash, Structural)]
pub enum Rotation {
    Spawn,
    Right,
    Rot2,
    Left,
}

/// A piece: four cells given relative to an origin, with the kind and the
/// rotation state that determine them.
#[derive(Copy, Clone, Debug)]
pub struct Tetromino {
    minos: [Point; MINOS],
    origin: Point,
    tetromino_type: TetrominoType,
    rot: Rotation,
}

/// What a `Tetromino` stands for.
pub struct Piece {
    pub minos: Seq<Pos>,
    pub origin: Pos,
    pub kind: TetrominoType,
    pub rot: Rotation,
}

impl Point {
    /// Initializes a new Point.
    pub fn new(x: isize, y: isize) -> (p: Point)
        ensures
            p.x == x,
            p.y == y,
    {
        Point { x, y }
    }
}

impl core::ops::Add for Point {
    type Output = Point;

    /// Adds two points coordinate by coordinate.
    fn add(self, other: Point) -> (sum: Point) {
        Point { x: self.x + other.x, y: self.y + other.y }
    }
}

impl vstd::std_specs::ops::AddSpecImpl for Point {
    open spec fn obeys_add_spec() -> bool {
        true
    }

    open spec fn add_req(self, other: Point) -> bool {
        &&& isize::MIN <= self.x + other.x <= isize::MAX
        &&& isize::MIN <= self.y + other.y <= isize::MAX
    }

    open spec fn add_spec(self, other: Point) -> Point {
        Point { x: (self.x + other.x) as isize, y: (self.y + other.y) as isize }
    }
}

impl View for Point {
    type V = Pos;

    open spec fn view(&self) -> Pos {
        Pos { x: self.x as int, y: self.y as int }
    }
}

impl View for Tetromino {
    type V = Piece;

    closed spec fn view(&self) -> Piece {
        Piece {
            minos: points_view(self.minos),
            origin: self.origin@,
            kind: self.tetromino_type,
            rot: self.rot,
        }
    }
}

/// The positions that four points stand for.
pub open spec fn points_view(points: [Point; MINOS]) -> Seq<Pos> {
    Seq::new(MINOS as nat, |i: int| points[i]@)
}

/// Four offsets written out coordinate by coordinate.
pub open spec fn quad(
    x0: int,
    y0: int,
    x1: int,
    y1: int,
    x2: int,
    y2: int,
    x3: int,
    y3: int,
) -> Seq<Pos> {
    seq![Pos { x: x0, y: y0 }, Pos { x: x1, y: y1 }, Pos { x: x2, y: y2 }, Pos { x: x3, y: y3 }]
}

/// The catalog: the four relative cells of each kind in each rotation state.
/// The preview marker is no shape of its own and has no entry.
pub open spec fn shape(kind: TetrominoType, rot: Rotation) -> Seq<Pos> {
    match (kind, rot) {
        (TetrominoType::I, Rotation::Spawn) => quad(0, 1, 1, 1, 2, 1, 3, 1),
        (TetrominoType::I, Rotation::Right) => quad(2, 0, 2, 1, 2, 2, 2, 3),
        (TetrominoType::I, Rotation::Rot2) => quad(0, 2, 1, 2, 2, 2, 3, 2),
        (TetrominoType::I, Rotation::Left) => quad(1, 0, 1, 1, 1, 2, 1, 3),
        (TetrominoType::J, Rotation::Spawn) => quad(0, 0, 0, 1, 1, 1, 2, 1),
        (TetrominoType::J, Rotation::Right) => quad(1, 0, 1, 1, 1, 2, 2, 0),
        (TetrominoType::J, Rotation::Rot2) => quad(0, 1, 1, 1, 2, 1, 2, 2),
        (TetrominoType::J, Rotation::Left) => quad(1, 0, 1, 1, 0, 2, 1, 2),
        (TetrominoType::L, Rotation::Spawn) => quad(2, 0, 0, 1, 1, 1, 2, 1),
        (TetrominoType::L, Rotation::Right) => quad(1, 0, 1, 1, 1, 2, 2, 2),
        (TetrominoType::L, Rotation::Rot2) => quad(0, 1, 1, 1, 2, 1, 0, 2),
        (TetrominoType::L, Rotation::Left) => quad(0, 0, 1, 0, 1, 1, 1, 2),
        (TetrominoType::O, _) => quad(1, 0, 2, 0, 1, 1, 2, 1),
        (TetrominoType::S, Rotation::Spawn) => quad(1, 0, 2, 0, 0, 1, 1, 1),
        (TetrominoType::S, Rotation::Right) => quad(1, 0, 1, 1, 2, 1, 2, 2),
        (TetrominoType::S, Rotation::Rot2) => quad(1, 1, 2, 1, 0, 2, 1, 2),
        (TetrominoType::S, Rotation::Left) => quad(0, 0, 0, 1, 1, 1, 1, 2),
        (TetrominoType::T, Rotation::Spawn) => quad(1, 0, 0, 1, 1, 1, 2, 1),
        (TetrominoType::T, Rotation::Right) => quad(1, 0, 1, 1, 2, 1, 1, 2),
        (TetrominoType::T, Rotation::Rot2) => quad(0, 1, 1, 1, 2, 1, 1, 2),
        (TetrominoType::T, Rotation::Left) => quad(1, 0, 0, 1, 1, 1, 1, 2),
        (TetrominoType::Z, Rotation::Spawn) => quad(0, 0, 1, 0, 1, 1, 2, 1),
        (TetrominoType::Z, Rotation::Right) => quad(2, 0, 1, 1, 2, 1, 1, 2),
        (TetrominoType::Z, Rotation::Rot2) => quad(0, 1, 1, 1, 1, 2, 2, 2),
        (TetrominoType::Z, Rotation::Left) => quad(1, 0, 0, 1, 1, 1, 0, 2),
        (TetrominoType::Shadow, _) => Seq::empty(),
    }
}

/// Two cells share an edge.
pub open spec fn adjacent(a: Pos, b: Pos) -> bool {
    ||| a.x == b.x && (a.y == b.y + 1 || b.y == a.y + 1)
    ||| a.y == b.y && (a.x == b.x + 1 || b.x == a.x + 1)
}

/// Cell `j` of `cells` can be reached from cell 0 by at most `steps` moves
/// between cells of `cells` that share an edge.
pub open spec fn reached(cells: Seq<Pos>, j: int, steps: nat) -> bool
    decreases steps,
{
    if steps == 0 {
        j == 0
    } else {
        ||| reached(cells, j, (steps - 1) as nat)
        ||| exists|i: int|
            0 <= i < cells.len() && reached(cells, i, (steps - 1) as nat) && adjacent(
                #[trigger] cells[i],
                cells[j],
            )
    }
}

/// The cells are pairwise distinct.
pub open spec fn distinct(cells: Seq<Pos>) -> bool {
    forall|i: int, j: int| 0 <= i < j < cells.len() ==> cells[i] != cells[j]
}

/// The cells hang together along shared edges.
pub open spec fn connected(cells: Seq<Pos>) -> bool {
    forall|j: int|
        #![trigger cells[j]]
        0 <= j < cells.len() ==> reached(cells, j, (cells.len() - 1) as nat)
}

/// The piece has four cells, each within a 4 by 4 box at its origin.
pub open spec fn boxed(p: Piece) -> bool {
    &&& p.minos.len() == MINOS
    &&& forall|i: int|
        0 <= i < MINOS ==> 0 <= (#[trigger] p.minos[i]).x <= 3 && 0 <= p.minos[i].y <= 3
}

impl Piece {
    /// The piece is one a player can be dealt, and its cells are those the
    /// catalog gives for its kind and rotation state.
    pub open spec fn is_playable(self) -> bool {
        self.kind != TetrominoType::Shadow && self.minos == shape(self.kind, self.rot)
    }

    /// The absolute position of cell `i`.
    pub open spec fn cell(self, i: int) -> Pos {
        Pos { x: self.origin.x + self.minos[i].x, y: self.origin.y + self.minos[i].y }
    }

    /// The same piece moved by `(dx, dy)`.
    pub open spec fn shifted(self, dx: int, dy: int) -> Piece {
        Piece { origin: Pos { x: self.origin.x + dx, y: self.origin.y + dy }, ..self }
    }

    /// The same piece with its origin at `origin`.
    pub open spec fn at(self, origin: Pos) -> Piece {
        Piece { origin, ..self }
    }

    /// The piece covers the cell `(x, y)`.
    pub open spec fn covers(self, x: int, y: int) -> bool {
        self.covers_with(MINOS as int, x, y)
    }

    /// One of the first `n` cells of the piece is `(x, y)`.
    pub open spec fn covers_with(self, n: int, x: int, y: int) -> bool {
        let at = Pos { x, y };
        ||| 0 < n && self.cell(0) == at
        ||| 1 < n && self.cell(1) == at
        ||| 2 < n && self.cell(2) == at
        ||| 3 < n && self.cell(3) == at
    }

    /// The preview marker of this piece: same cells, same place.
    pub open spec fn as_ghost(self) -> Piece {
        Piece { kind: TetrominoType::Shadow, ..self }
    }

    /// A newly dealt piece of the given kind.
    pub open spec fn fresh(origin: Pos, kind: TetrominoType, rot: Rotation) -> Piece {
        Piece { minos: shape(kind, rot), origin, kind, rot }
    }
}

fn four(
    x0: isize,
    y0: isize,
    x1: isize,
    y1: isize,
    x2: isize,
    y2: isize,
    x3: isize,
    y3: isize,
) -> (cells: [Point; MINOS])
    ensures
        points_view(cells) == quad(
            x0 as int,
            y0 as int,
            x1 as int,
            y1 as int,
            x2 as int,
            y2 as int,
            x3 as int,
            y3 as int,
        ),
{
    let cells = [
        Point { x: x0, y: y0 },
        Point { x: x1, y: y1 },
        Point { x: x2, y: y2 },
        Point { x: x3, y: y3 },
    ];
    assert(points_view(cells) =~= quad(
        x0 as int,
        y0 as int,
        x1 as int,
        y1 as int,
        x2 as int,
        y2 as int,
        x3 as int,
        y3 as int,
    ));
    cells
}

/// Looks a shape up in the catalog.
fn catalog(kind: TetrominoType, rot: Rotation) -> (cells: [Point; MINOS])
    requires
        kind != TetrominoType::Shadow,
    ensures
        points_view(cells) == shape(kind, rot),
{
    match (kind, rot) {
        (TetrominoType::I, Rotation::Spawn) => four(0, 1, 1, 1, 2, 1, 3, 1),
        (TetrominoType::I, Rotation::Right) => four(2, 0, 2, 1, 2, 2, 2, 3),
        (TetrominoType::I, Rotation::Rot2) => four(0, 2, 1, 2, 2, 2, 3, 2),
        (TetrominoType::I, Rotation::Left) => four(1, 0, 1, 1, 1, 2, 1, 3),
        (TetrominoType::J, Rotation::Spawn) => four(0, 0, 0, 1, 1, 1, 2, 1),
        (TetrominoType::J, Rotation::Right) => four(1, 0, 1, 1, 1, 2, 2, 0),
        (TetrominoType::J, Rotation::Rot2) => four(0, 1, 1, 1, 2, 1, 2, 2),
        (TetrominoType::J, Rotation::Left) => four(1, 0, 1, 1, 0, 2, 1, 2),
        (TetrominoType::L, Rotation::Spawn) => four(2, 0, 0, 1, 1, 1, 2, 1),
        (TetrominoType::L, Rotation::Right) => four(1, 0, 1, 1, 1, 2, 2, 2),
        (TetrominoType::L, Rotation::Rot2) => four(0, 1, 1, 1, 2, 1, 0, 2),
        (TetrominoType::L, Rotation::Left) => four(0, 0, 1, 0, 1, 1, 1, 2),
        (TetrominoType::O, _) => four(1, 0, 2, 0, 1, 1, 2, 1),
        (TetrominoType::S, Rotation::Spawn) => four(1, 0, 2, 0, 0, 1, 1, 1),
        (TetrominoType::S, Rotation::Right) => four(1, 0, 1, 1, 2, 1, 2, 2),
        (TetrominoType::S, Rotation::Rot2) => four(1, 1, 2, 1, 0, 2, 1, 2),
        (TetrominoType::S, Rotation::Left) => four(0, 0, 0, 1, 1, 1, 1, 2),
        (TetrominoType::T, Rotation::Spawn) => four(1, 0, 0, 1, 1, 1, 2, 1),
        (TetrominoType::T, Rotation::Right) => four(1, 0, 1, 1, 2, 1, 1, 2),
        (TetrominoType::T, Rotation::Rot2) => four(0, 1, 1, 1, 2, 1, 1, 2),
        (TetrominoType::T, Rotation::Left) => four(1, 0, 0, 1, 1, 1, 1, 2),
        (TetrominoType::Z, Rotation::Spawn) => four(0, 0, 1, 0, 1, 1, 2, 1),
        (TetrominoType::Z, Rotation::Right) => four(2, 0, 1, 1, 2, 1, 1, 2),
        (TetrominoType::Z, Rotation::Rot2) => four(0, 1, 1, 1, 1, 2, 2, 2),
        (TetrominoType::Z, Rotation::Left) => four(1, 0, 0, 1, 1, 1, 0, 2),
        (TetrominoType::Shadow, _) => four(0, 0, 0, 0, 0, 0, 0, 0),
    }
}

impl Tetromino {
    /// Initializes a new Tetromino of a specified kind and rotation state.
    pub fn new(origin: Point, tetromino_type: TetrominoType, rot: Rotation) -> (piece: Self)
        requires
            tetromino_type != TetrominoType::Shadow,
        ensures
            piece@ == Piece::fresh(origin@, tetromino_type, rot),
            piece@.is_playable(),
            boxed(piece@),
    {
        proof {
            lemma_shape_in_box(tetromino_type, rot);
        }
        Tetromino { minos: catalog(tetromino_type, rot), origin, tetromino_type, rot }
    }

    /// The landing preview of a piece: the same cells at the same place,
    /// tagged as preview.
    pub fn new_ghost(piece: &Tetromino) -> (shadow: Self)
        ensures
            shadow@ == piece@.as_ghost(),
    {
        Tetromino {
            minos: piece.minos,
            origin: piece.origin,
            tetromino_type: TetrominoType::Shadow,
            rot: piece.rot,
        }
    }

    pub fn minos(&self) -> (minos: [Point; MINOS])
        ensures
            points_view(minos) == self@.minos,
    {
        self.minos
    }

    pub fn origin(&self) -> (origin: Point)
        ensures
            origin@ == self@.origin,
    {
        self.origin
    }

    pub fn set_origin(&mut self, origin: Point)
        ensures
            final(self)@ == old(self)@.at(origin@),
    {
        self.origin = origin;
    }

    pub fn tetromino_type(&self) -> (kind: TetrominoType)
        ensures
            kind == self@.kind,
    {
        self.tetromino_type
    }

    pub fn rot(&self) -> (rot: Rotation)
        ensures
            rot == self@.rot,
    {
        self.rot
    }

    /// Two pieces that stand for the same thing are the same value.
    pub proof fn lemma_view_injective(a: Tetromino, b: Tetromino)
        requires
            a@ == b@,
        ensures
            a == b,
    {
        assert(a.origin == b.origin);
        assert forall|i: int| 0 <= i < MINOS implies a.minos[i] == b.minos[i] by {
            assert(points_view(a.minos)[i] == points_view(b.minos)[i]);
        }
        assert(a.minos =~= b.minos);
    }
}

/// Every catalog shape has four cells, all inside a 4 by 4 box at the origin.
pub proof fn lemma_shape_in_box(kind: TetrominoType, rot: Rotation)
    requires
        kind != TetrominoType::Shadow,
    ensures
        shape(kind, rot).len() == MINOS,
        forall|i: int|
            0 <= i < MINOS ==> 0 <= (#[trigger] shape(kind, rot)[i]).x <= 3 && 0 <= shape(
                kind,
                rot,
            )[i].y <= 3,
        forall|origin: Pos| boxed(#[trigger] Piece::fresh(origin, kind, rot)),
{
}

/// Every catalog shape is a tetromino: its four cells are pairwise distinct
/// and hang together along shared edges.
pub proof fn lemma_shape_is_tetromino(kind: TetrominoType, rot: Rotation)
    requires
        kind != TetrominoType::Shadow,
    ensures
        shape(kind, rot).len() == MINOS,
        distinct(shape(kind, rot)),
        connected(shape(kind, rot)),
{
    reveal_with_fuel(reached, 4);
}

} // verus!
