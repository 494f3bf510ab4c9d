use tetris::board::{Board, Field, HEIGHT, WIDTH};
use tetris::game::{apply, apply_with, gravity_delay, Intent};
use tetris::tetromino::TetrominoType;

fn empty_field() -> Field {
    [[None; WIDTH]; HEIGHT]
}

fn sorted_bag() -> Vec<TetrominoType> {
    vec![
        TetrominoType::I,
        TetrominoType::J,
        TetrominoType::L,
        TetrominoType::O,
        TetrominoType::S,
        TetrominoType::T,
        TetrominoType::Z,
    ]
}

fn fresh() -> Board {
    Board::with_field(empty_field(), sorted_bag())
}

#[test]
fn gravity_gets_faster_level_by_level() {
    let table = [
        800, 720, 630, 550, 470, 380, 300, 220, 130, 100, 80, 80, 80, 70, 70, 70, 50, 50, 50, 30,
    ];
    for (level, ms) in table.iter().enumerate() {
        assert_eq!(gravity_delay(level), *ms);
    }
    for level in 1..40 {
        assert!(gravity_delay(level) <= gravity_delay(level - 1));
    }
}

#[test]
fn gravity_keeps_its_pace_beyond_the_table() {
    assert_eq!(gravity_delay(19), 30);
    assert_eq!(gravity_delay(20), 30);
    assert_eq!(gravity_delay(1000), 30);
    assert_eq!(gravity_delay(usize::MAX), 30);
}

#[test]
fn each_intent_does_what_the_board_does() {
    let cases: Vec<(Intent, fn(&mut Board))> = vec![
        (Intent::Left, |b| b.left()),
        (Intent::Right, |b| b.right()),
        (Intent::Down, |b| b.down()),
        (Intent::RotateClockwise, |b| b.rotate(tetris::srs::Direction::Clockwise)),
        (Intent::RotateCounterClockwise, |b| b.rotate(tetris::srs::Direction::CounterClockwise)),
        (Intent::Drop, |b| b.drop_tetromino_with(sorted_bag())),
        (Intent::Hold, |b| b.hold_tetromino_with(sorted_bag())),
        (Intent::Tick, |b| b.tick_with(sorted_bag())),
        (Intent::Quit, |_| {}),
    ];
    for (intent, direct) in cases {
        let mut asked = fresh();
        let mut done = fresh();
        let go_on = apply_with(&mut asked, intent, sorted_bag());
        direct(&mut done);
        assert_eq!(asked.field(), done.field());
        assert_eq!(asked.score(), done.score());
        assert_eq!(asked.cleared(), done.cleared());
        assert_eq!(
            asked.hold().map(|p| p.tetromino_type()),
            done.hold().map(|p| p.tetromino_type())
        );
        assert_eq!(
            asked.peek_next().tetromino_type(),
            done.peek_next().tetromino_type()
        );
        assert_eq!(go_on, intent != Intent::Quit);
    }
}

#[test]
fn quit_ends_the_game_and_changes_nothing() {
    let mut board = fresh();
    let before = board.field();
    assert!(!apply(&mut board, Intent::Quit));
    assert_eq!(board.field(), before);
    assert!(!board.is_topped_out());
}

#[test]
fn game_goes_on_until_the_board_tops_out() {
    let mut board = fresh();
    let mut drops = 0;
    while apply(&mut board, Intent::Drop) {
        assert!(tetris::game::can_apply(&board, Intent::Drop));
        drops += 1;
        assert!(drops < 40);
    }
    assert!(board.is_topped_out());
    assert!(!apply(&mut board, Intent::Tick));
    assert!(!apply(&mut board, Intent::Left));
}

#[test]
fn tick_intent_scores_like_gravity() {
    let mut board = fresh();
    assert!(apply(&mut board, Intent::Tick));
    assert!(apply(&mut board, Intent::Tick));
    assert_eq!(board.score(), 2);
    assert!(apply(&mut board, Intent::Down));
    assert_eq!(board.score(), 2);
    assert!(apply(&mut board, Intent::Drop));
    assert_eq!(board.score(), 2 + 2 * 17);
}

#[test]
fn new_game_shows_a_new_board_in_the_standard_layout() {
    let game = tetris::game::Game::new();
    assert!(!game.board().is_topped_out());
    assert_eq!(game.board().score(), 0);
    assert!(game.can_serve(Intent::Drop));
    assert!(game.can_serve(Intent::Left));
    assert_eq!(game.pause(), 800);
    assert_eq!(game.setup(), tetris::ui::Ui::new().setup());
    assert_eq!(game.render(), tetris::game::render(&tetris::ui::Ui::new(), game.board()));
    assert_eq!(game.render().len(), 400 + 54 + 3);
}

#[test]
fn game_serves_requests_on_its_board() {
    let mut game = tetris::game::Game::new();
    let before = game.board().field();
    assert!(game.serve(Intent::Tick));
    assert_eq!(game.board().score(), 1);
    assert_ne!(game.board().field(), before);
    assert!(game.serve_with(Intent::Drop, sorted_bag()));
    assert!(game.board().score() > 1);
    assert!(!game.serve(Intent::Quit));
    let mut drops = 0;
    while game.serve(Intent::Drop) {
        drops += 1;
        assert!(drops < 40);
    }
    assert!(game.board().is_topped_out());
    let shown = game.render();
    assert!(!game.serve(Intent::Tick));
    assert_eq!(game.render(), shown);
}

#[test]
fn only_requests_that_count_ask_for_room_in_the_counters() {
    let board = fresh();
    for intent in [
        Intent::Left,
        Intent::Right,
        Intent::Down,
        Intent::RotateClockwise,
        Intent::RotateCounterClockwise,
        Intent::Drop,
        Intent::Hold,
        Intent::Tick,
        Intent::Quit,
    ] {
        assert!(tetris::game::can_apply(&board, intent));
    }
    assert!(board.can_fall());
    assert!(board.has_headroom());
}

#[test]
fn board_that_is_topped_out_takes_every_request() {
    let mut field = empty_field();
    field[1][4] = Some(TetrominoType::J);
    let mut board = Board::with_field(field, sorted_bag());
    assert!(board.is_topped_out());
    assert!(board.can_fall());
    let shown = board.field();
    assert!(!apply(&mut board, Intent::Tick));
    assert!(!apply(&mut board, Intent::Drop));
    assert!(!apply(&mut board, Intent::Hold));
    assert_eq!(board.field(), shown);
}
