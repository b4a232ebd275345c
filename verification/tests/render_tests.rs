use sttt::Board;
use sttt::Player;
use sttt::Status;
use sttt::STTT;

#[test]
fn render_has_fixed_size() {
    // The layout is fixed-width: the picture always holds exactly 1131
    // characters on 23 lines, whatever the position.
    let empty = Board::new().to_text();
    assert_eq!(empty.len(), 1131);
    assert_eq!(empty.matches('\n').count(), 23);
    assert!(empty.contains("metaboard"));
    assert!(empty.contains("---------------+---------------+---------------"));
    assert!(!empty.contains(" X "));

    let mut game = STTT::new();
    game.play(Player::X, 40).unwrap();
    let one_move = game.board().to_text();
    assert_eq!(one_move.len(), 1131);
    assert!(one_move.contains(" X "));
}

#[test]
fn render_empty_board_exact() {
    // The empty board renders byte for byte as the fixed layout.
    let expected = [
        "               |               |\n",
        "     |   |     |     |   |     |     |   |   \n",
        "  ---+---+---  |  ---+---+---  |  ---+---+---\n",
        "     |   |     |     |   |     |     |   |   \n",
        "  ---+---+---  |  ---+---+---  |  ---+---+---\n",
        "     |   |     |     |   |     |     |   |   \n",
        "               |               |\n",
        "---------------+---------------+---------------             metaboard\n",
        "               |               |\n",
        "     |   |     |     |   |     |     |   |                    |   |   \n",
        "  ---+---+---  |  ---+---+---  |  ---+---+---              ---+---+---\n",
        "     |   |     |     |   |     |     |   |                    |   |   \n",
        "  ---+---+---  |  ---+---+---  |  ---+---+---              ---+---+---\n",
        "     |   |     |     |   |     |     |   |                    |   |   \n",
        "               |               |\n",
        "---------------+---------------+---------------\n",
        "               |               |\n",
        "     |   |     |     |   |     |     |   |   \n",
        "  ---+---+---  |  ---+---+---  |  ---+---+---\n",
        "     |   |     |     |   |     |     |   |   \n",
        "  ---+---+---  |  ---+---+---  |  ---+---+---\n",
        "     |   |     |     |   |     |     |   |   \n",
        "               |               |\n",
    ]
    .concat();
    assert_eq!(Board::new().to_text(), expected);
}

#[test]
fn render_shows_metaboard_mark() {
    // Win small board 0 for X (middle row 3,4,5) and check that both the
    // board cells and the metaboard summary show it.
    let mut game = STTT::new();
    for (p, pos) in [
        (Player::X, 4),
        (Player::O, 36),
        (Player::X, 3),
        (Player::O, 27),
        (Player::X, 5),
    ] {
        assert_eq!(game.play(p, pos), Ok(Status::InProgress));
    }
    let board = game.board();
    assert_eq!(board.metaboard()[0], Some(Player::X));
    let text = board.to_text();
    assert_eq!(text.len(), 1131);
    // Board 0's middle row holds three X marks.
    assert!(text.lines().any(|l| l.starts_with("   X | X | X ")));
    // The metaboard summary sits to the right of the middle super-row: its
    // first row is appended to a 45-character cells line.
    assert!(text.lines().any(|l| l.len() == 70 && l.ends_with(" X |   |   ")));
}
