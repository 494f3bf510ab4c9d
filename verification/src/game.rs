//! The game around the board: what can be asked of it, what each request
//! does, when the game goes on, how fast the pieces fall, and what is shown
//! of it all.

use crate::bag::is_full_bag;
use crate::board::Board;
use crate::srs::Direction;
use crate::state::{spawn_pos, BoardView};
use crate::tetromino::{Piece, Rotation, TetrominoType};
use crate::ui::{Layout, Ui};
use crate::upkeep::lemma_fresh_is_inside;
use crate::window::Glyph;
use vstd::prelude::*;

verus! {

/// Number of levels on which gravity still gets faster.
pub const SPEEDS: usize = 20;

/// What can be asked of a game in progress.
#[derive(Copy, Clone, Debug, PartialEq, Eq, Structural)]
pub enum Intent {
    /// Move the piece one column to the left.
    Left,
    /// Move the piece one column to the right.
    Right,
    /// Move the piece one row down.
    Down,
    /// Turn the piece clockwise.
    RotateClockwise,
    /// Turn the piece counterclockwise.
    RotateCounterClockwise,
    /// Drop the piece as far as it goes and let it come to rest.
    Drop,
    /// Put the piece into the hold slot.
    Hold,
    /// One step of gravity.
    Tick,
    /// End the game.
    Quit,
}

/// The state of the board after a request has been served. Where the draw
/// sequence runs out on the way, `refill` takes its place.
pub open spec fn after(s: BoardView, intent: Intent, refill: Seq<TetrominoType>) -> BoardView {
    match intent {
        Intent::Left => s.shift(-1, 0),
        Intent::Right => s.shift(1, 0),
        Intent::Down => s.shift(0, 1),
        Intent::RotateClockwise => s.turn(Direction::Clockwise),
        Intent::RotateCounterClockwise => s.turn(Direction::CounterClockwise),
        Intent::Drop => s.hard_drop(refill),
        Intent::Hold => s.swap_hold(refill),
        Intent::Tick => s.tick(refill),
        Intent::Quit => s,
    }
}

/// The request is one that can add to the counters of the board: a hard
/// drop or a step of gravity.
pub open spec fn counts(intent: Intent) -> bool {
    intent == Intent::Drop || intent == Intent::Tick
}

/// The board can serve the request: a request that can add to the
/// counters finds room in them, unless the game is over.
pub open spec fn can_serve(s: BoardView, intent: Intent) -> bool {
    counts(intent) ==> s.can_fall()
}

/// The game goes on after a request unless the request was to end it, or
/// the board has topped out.
pub open spec fn goes_on(s: BoardView, intent: Intent) -> bool {
    intent != Intent::Quit && !s.topped_out
}

/// The pause between two steps of gravity, in milliseconds, level by level.
pub open spec fn delays() -> Seq<u64> {
    seq![800, 720, 630, 550, 470, 380, 300, 220, 130, 100, 80, 80, 80, 70, 70, 70, 50, 50, 50, 30]
}

/// The pause between two steps of gravity on a level, in milliseconds: the
/// entry of the table for the level, and its last entry for every level
/// beyond the table.
pub open spec fn delay_of(level: nat) -> u64 {
    if level < SPEEDS {
        delays()[level as int]
    } else {
        delays()[SPEEDS - 1]
    }
}

/// Tells whether the board can serve a request: whether a request that can
/// add to the counters of the board finds room in them.
pub fn can_apply(board: &Board, intent: Intent) -> (b: bool)
    ensures
        b == can_serve(board@, intent),
{
    match intent {
        Intent::Drop | Intent::Tick => board.can_fall(),
        _ => true,
    }
}

/// Serves one request on the board and tells whether the game goes on.
/// When the draw sequence runs out, a freshly shuffled one takes its place.
pub fn apply(board: &mut Board, intent: Intent) -> (go_on: bool)
    requires
        old(board)@.wf(),
        can_serve(old(board)@, intent),
    ensures
        exists|refill: Seq<TetrominoType>|
            is_full_bag(refill) && final(board)@ == after(old(board)@, intent, refill),
        final(board)@.wf(),
        go_on == goes_on(final(board)@, intent),
{
    proof {
        crate::bag::lemma_all_kinds_is_full();
    }
    let ghost s0 = board@;
    match intent {
        Intent::Left => {
            board.left();
            assert(board@ == after(s0, intent, crate::bag::all_kinds()));
        },
        Intent::Right => {
            board.right();
            assert(board@ == after(s0, intent, crate::bag::all_kinds()));
        },
        Intent::Down => {
            board.down();
            assert(board@ == after(s0, intent, crate::bag::all_kinds()));
        },
        Intent::RotateClockwise => {
            board.rotate(Direction::Clockwise);
            assert(board@ == after(s0, intent, crate::bag::all_kinds()));
        },
        Intent::RotateCounterClockwise => {
            board.rotate(Direction::CounterClockwise);
            assert(board@ == after(s0, intent, crate::bag::all_kinds()));
        },
        Intent::Drop => {
            board.drop_tetromino();
            let ghost refill = choose|refill: Seq<TetrominoType>|
                is_full_bag(refill) && board@ == s0.hard_drop(refill);
            assert(board@ == after(s0, intent, refill));
        },
        Intent::Hold => {
            board.hold_tetromino();
            let ghost refill = choose|refill: Seq<TetrominoType>|
                is_full_bag(refill) && board@ == s0.swap_hold(refill);
            assert(board@ == after(s0, intent, refill));
        },
        Intent::Tick => {
            board.tick();
            let ghost refill = choose|refill: Seq<TetrominoType>|
                is_full_bag(refill) && board@ == s0.tick(refill);
            assert(board@ == after(s0, intent, refill));
        },
        Intent::Quit => {
            assert(board@ == after(s0, intent, crate::bag::all_kinds()));
            return false;
        },
    }
    !board.is_topped_out()
}

/// Serves one request on the board and tells whether the game goes on.
/// When the draw sequence runs out, `refill` takes its place.
pub fn apply_with(board: &mut Board, intent: Intent, refill: Vec<TetrominoType>) -> (go_on: bool)
    requires
        old(board)@.wf(),
        can_serve(old(board)@, intent),
        is_full_bag(refill@),
    ensures
        final(board)@ == after(old(board)@, intent, refill@),
        final(board)@.wf(),
        go_on == goes_on(final(board)@, intent),
{
    match intent {
        Intent::Left => board.left(),
        Intent::Right => board.right(),
        Intent::Down => board.down(),
        Intent::RotateClockwise => board.rotate(Direction::Clockwise),
        Intent::RotateCounterClockwise => board.rotate(Direction::CounterClockwise),
        Intent::Drop => board.drop_tetromino_with(refill),
        Intent::Hold => board.hold_tetromino_with(refill),
        Intent::Tick => board.tick_with(refill),
        Intent::Quit => {
            return false;
        },
    }
    !board.is_topped_out()
}

/// What the user interface shows of a board: the board, the next piece, the
/// score, the level and the lines, in this order.
pub open spec fn frame_shown(layout: Layout, s: BoardView) -> Seq<Glyph> {
    layout.board_shown(s.grid) + layout.next_shown(
        Piece::fresh(spawn_pos(), s.next.last(), Rotation::Spawn),
    ) + Layout::number_shown(layout.score, s.score) + Layout::number_shown(layout.level, s.level)
        + Layout::number_shown(layout.lines, s.cleared)
}

/// Renders the game state and board: gives everything the user interface
/// shows of them.
pub fn render(ui: &Ui, board: &Board) -> (glyphs: Vec<Glyph>)
    requires
        ui@.on_screen(),
        board@.wf(),
    ensures
        glyphs@ == frame_shown(ui@, board@),
{
    proof {
        lemma_fresh_is_inside(board@.next.last(), Rotation::Spawn);
    }
    let mut glyphs = ui.print_board(board);
    let mut more = ui.print_next(board.peek_next());
    glyphs.append(&mut more);
    let mut more = ui.print_score(board.score());
    glyphs.append(&mut more);
    let mut more = ui.print_level(board.level());
    glyphs.append(&mut more);
    let mut more = ui.print_lines(board.cleared());
    glyphs.append(&mut more);
    glyphs
}

/// The pause before the next step of gravity on a level, in milliseconds.
pub fn gravity_delay(level: usize) -> (ms: u64)
    ensures
        ms == delay_of(level as nat),
{
    let table: [u64; SPEEDS] = [
        800,
        720,
        630,
        550,
        470,
        380,
        300,
        220,
        130,
        100,
        80,
        80,
        80,
        70,
        70,
        70,
        50,
        50,
        50,
        30,
    ];
    if level < SPEEDS {
        table[level]
    } else {
        table[SPEEDS - 1]
    }
}

/// A controller between the user interface and the game state.
pub struct Game {
    ui: Ui,
    board: Board,
}

/// What a `Game` stands for.
pub struct GameView {
    pub layout: Layout,
    pub board: BoardView,
}

impl View for Game {
    type V = GameView;

    closed spec fn view(&self) -> GameView {
        GameView { layout: self.ui@, board: self.board@ }
    }
}

impl GameView {
    /// The invariant of the game: its windows lie on the screen, and its
    /// board is well-formed.
    pub open spec fn wf(self) -> bool {
        self.layout.on_screen() && self.board.wf()
    }
}

impl Game {
    /// Initializes a new Game: the user interface in its standard layout
    /// and a new board.
    pub fn new() -> (game: Game)
        ensures
            game@.layout == crate::ui::standard(),
            exists|bag: Seq<TetrominoType>|
                is_full_bag(bag) && game@.board == BoardView::start(crate::grid::blank(), bag),
            game@.wf(),
            !game@.board.topped_out,
    {
        Game { ui: Ui::new(), board: Board::new() }
    }

    /// The board of the game.
    pub fn board(&self) -> (board: &Board)
        ensures
            board@ == self@.board,
    {
        &self.board
    }

    /// Gives the borders of the windows, to be shown once before the game
    /// begins.
    pub fn setup(&self) -> (glyphs: Vec<Glyph>)
        requires
            self@.wf(),
        ensures
            glyphs@ == self@.layout.frame(),
    {
        self.ui.setup()
    }

    /// Renders the game state and board: gives everything the user
    /// interface shows of them.
    pub fn render(&self) -> (glyphs: Vec<Glyph>)
        requires
            self@.wf(),
        ensures
            glyphs@ == frame_shown(self@.layout, self@.board),
    {
        render(&self.ui, &self.board)
    }

    /// Tells whether the game can serve a request: whether a request that
    /// can add to the counters of the board finds room in them.
    pub fn can_serve(&self, intent: Intent) -> (b: bool)
        ensures
            b == can_serve(self@.board, intent),
    {
        can_apply(&self.board, intent)
    }

    /// Serves one request and tells whether the game goes on. When the draw
    /// sequence runs out, a freshly shuffled one takes its place.
    pub fn serve(&mut self, intent: Intent) -> (go_on: bool)
        requires
            old(self)@.wf(),
            can_serve(old(self)@.board, intent),
        ensures
            exists|refill: Seq<TetrominoType>|
                is_full_bag(refill) && final(self)@.board == after(
                    old(self)@.board,
                    intent,
                    refill,
                ),
            final(self)@.layout == old(self)@.layout,
            final(self)@.wf(),
            go_on == goes_on(final(self)@.board, intent),
    {
        let go_on = apply(&mut self.board, intent);
        let ghost refill = choose|refill: Seq<TetrominoType>|
            is_full_bag(refill) && self.board@ == after(old(self).board@, intent, refill);
        assert(is_full_bag(refill) && self@.board == after(old(self)@.board, intent, refill));
        go_on
    }

    /// Serves one request and tells whether the game goes on. When the draw
    /// sequence runs out, `refill` takes its place.
    pub fn serve_with(&mut self, intent: Intent, refill: Vec<TetrominoType>) -> (go_on: bool)
        requires
            old(self)@.wf(),
            can_serve(old(self)@.board, intent),
            is_full_bag(refill@),
        ensures
            final(self)@.board == after(old(self)@.board, intent, refill@),
            final(self)@.layout == old(self)@.layout,
            final(self)@.wf(),
            go_on == goes_on(final(self)@.board, intent),
    {
        apply_with(&mut self.board, intent, refill)
    }

    /// The pause before the next step of gravity, in milliseconds: the
    /// higher the level of the board, the shorter.
    pub fn pause(&self) -> (ms: u64)
        ensures
            ms == delay_of(self@.board.level),
    {
        gravity_delay(self.board.level())
    }
}

/// Gravity never slows down as the level goes up, and never stops: the
/// pause gets no longer from one level to the next, and stays between 30
/// and 800 milliseconds.
pub proof fn lemma_gravity_speeds_up(low: nat, high: nat)
    requires
        low <= high,
    ensures
        delay_of(high) <= delay_of(low),
        30 <= delay_of(low) <= 800,
{
}

} // verus!
