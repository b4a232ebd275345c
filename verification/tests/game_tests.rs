use sttt::MoveError;
use sttt::Player;
use sttt::Status;
use sttt::STTT;

#[test]
fn new_game_x_to_move() {
    let game = STTT::new();
    assert_eq!(game.player(), Player::X);
    let board = game.board();
    for b in 0..9 {
        for c in 0..9 {
            assert_eq!(board.cell(b, c), None);
        }
        assert!(board.is_open(b));
    }
}

#[test]
fn opening_scenario() {
    // X plays 0, O is sent to board 0 and plays 1, which sends X to board 1;
    // X plays 9 (board 1, cell 0) and succeeds.
    let mut game = STTT::new();
    assert_eq!(game.play(Player::X, 0), Ok(Status::InProgress));
    assert_eq!(game.play(Player::O, 1), Ok(Status::InProgress));
    assert_eq!(game.play(Player::X, 9), Ok(Status::InProgress));
}

#[test]
fn turn_order_alternates() {
    let mut game = STTT::new();
    assert_eq!(game.player(), Player::X);
    game.play(Player::X, 0).unwrap();
    assert_eq!(game.player(), Player::O);
    game.play(Player::O, 1).unwrap();
    assert_eq!(game.player(), Player::X);
    game.play(Player::X, 9).unwrap();
    assert_eq!(game.player(), Player::O);
}

#[test]
fn wrong_turn_never_mutates() {
    let mut game = STTT::new();
    assert_eq!(game.play(Player::O, 0), Err(MoveError::WrongTurn));
    assert_eq!(game.player(), Player::X);
    assert_eq!(game.board().cell(0, 0), None);
    // The rejected move left the game fully usable for the right player.
    assert_eq!(game.play(Player::X, 0), Ok(Status::InProgress));
    assert_eq!(game.play(Player::X, 1), Err(MoveError::WrongTurn));
    assert_eq!(game.player(), Player::O);
    assert_eq!(game.board().cell(0, 1), None);
}

#[test]
fn play_position_out_of_range() {
    let mut game = STTT::new();
    assert_eq!(game.play(Player::X, 81), Err(MoveError::PositionOutOfRange));
    assert_eq!(game.play(Player::X, 200), Err(MoveError::PositionOutOfRange));
    assert_eq!(game.player(), Player::X);
}

#[test]
fn mirror_rule_restricts_board() {
    // X plays cell 0 of board 0, so O may only play in board 0.
    let mut game = STTT::new();
    game.play(Player::X, 0).unwrap();
    assert_eq!(game.play(Player::O, 9), Err(MoveError::IllegalBoard));
    assert_eq!(game.play(Player::O, 80), Err(MoveError::IllegalBoard));
    assert_eq!(game.board().cell(1, 0), None);
    assert_eq!(game.play(Player::O, 3), Ok(Status::InProgress));
}

#[test]
fn mirror_rule_free_move_when_board_closed() {
    // X wins board 0 with a move on cell 0, so the mirror board is no
    // longer playable and O gets a free move in any playable board.
    let mut game = STTT::new();
    game.play(Player::X, 1).unwrap();
    game.play(Player::O, 9).unwrap();
    game.play(Player::X, 2).unwrap();
    game.play(Player::O, 18).unwrap();
    game.play(Player::X, 0).unwrap();
    assert_eq!(game.play(Player::O, 0), Err(MoveError::IllegalBoard));
    assert_eq!(game.play(Player::O, 22), Ok(Status::InProgress));
}

#[test]
fn cell_occupied() {
    let mut game = STTT::new();
    game.play(Player::X, 0).unwrap();
    assert_eq!(game.play(Player::O, 0), Err(MoveError::CellOccupied));
    assert_eq!(game.board().cell(0, 0), Some(Player::X));
    assert_eq!(game.player(), Player::O);
}

#[test]
fn small_board_win_keeps_game_going() {
    // X collects cells 0, 1, 2 of board 0: board 0 resolves to a win for X
    // and the game goes on, since the metaboard has no line yet.
    let mut game = STTT::new();
    let moves = [
        (Player::X, 1),
        (Player::O, 9),
        (Player::X, 2),
        (Player::O, 18),
        (Player::X, 0),
    ];
    for (p, pos) in moves.iter() {
        assert_eq!(game.play(*p, *pos), Ok(Status::InProgress));
    }
    let board = game.board();
    assert_eq!(board.metaboard()[0], Some(Player::X));
    assert!(!board.is_open(0));
}

#[test]
fn full_game_metaboard_diagonal_win() {
    // A complete legal game where X wins small boards 0, 4 and 8 and with
    // them the metaboard diagonal; afterwards no move is accepted.
    let seq = [
        1, 9, 2, 18, 0, 22, 36, 31, 37, 13, 38, 21, 30, 35, 72, 53, 73, 14, 51, 62, 74,
    ];
    let mut game = STTT::new();
    let mut mover = Player::X;
    for (n, pos) in seq.iter().enumerate() {
        let r = game.play(mover, *pos);
        if n + 1 == seq.len() {
            assert_eq!(r, Ok(Status::Winner(Player::X)));
        } else {
            assert_eq!(r, Ok(Status::InProgress));
            mover = game.player();
        }
    }
    let meta = game.board().metaboard();
    assert_eq!(meta[0], Some(Player::X));
    assert_eq!(meta[4], Some(Player::X));
    assert_eq!(meta[8], Some(Player::X));
    // The game is terminal: every further attempt fails without effect.
    assert_eq!(game.play(Player::O, 10), Err(MoveError::AlreadyFinished));
    assert_eq!(game.play(Player::X, 10), Err(MoveError::AlreadyFinished));
    assert_eq!(game.board().cell(1, 1), None);
}

#[test]
fn full_game_tie() {
    // A complete legal game in which every small board ends won or drawn
    // without a metaboard line: the last move leaves no playable board and
    // the game ends in a tie.
    let seq = [
        49, 42, 54, 4, 44, 78, 59, 53, 77, 50, 46, 17, 73, 13, 37, 10, 15, 62, 75, 35, 74, 22,
        36, 1, 12, 34, 71, 72, 3, 30, 29, 21, 33, 58, 41, 51, 55, 11, 18, 6, 61, 63, 8, 79, 70,
        66, 27, 5, 48, 28, 14, 45, 0, 2, 25, 68, 47, 19, 16, 65, 20, 26, 80, 32, 52, 69, 57, 31,
        43, 24, 60, 39, 23, 40, 38, 9,
    ];
    let mut game = STTT::new();
    for (n, pos) in seq.iter().enumerate() {
        let mover = game.player();
        let r = game.play(mover, *pos);
        if n + 1 == seq.len() {
            assert_eq!(r, Ok(Status::Tie));
        } else {
            assert_eq!(r, Ok(Status::InProgress));
        }
    }
    assert_eq!(game.play(Player::X, 0), Err(MoveError::AlreadyFinished));
    assert_eq!(game.play(Player::O, 0), Err(MoveError::AlreadyFinished));
}

#[test]
fn board_copy_is_independent() {
    let mut game = STTT::new();
    game.play(Player::X, 0).unwrap();
    let copy = game.board();
    game.play(Player::O, 1).unwrap();
    assert_eq!(copy.cell(0, 1), None);
    assert_eq!(game.board().cell(0, 1), Some(Player::O));
}
