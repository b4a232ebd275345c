//! The turn and legality state machine: turn order, the legal-board set, and
//! the overall game status.

use vstd::prelude::*;

use crate::board::{
    any_playable, line_winner, meta_of, next_grid, playable, playable_boards, Board,
    lemma_move_meta,
};
use crate::MoveError;
use crate::Player;

verus! {

/// The overall status of a game.  `Winner` and `Tie` are terminal: once
/// reached, no further move is accepted.
#[derive(Copy, Clone, Debug, PartialEq, Eq, Structural)]
pub enum Status {
    /// The player has won the game on the metaboard.
    Winner(Player),
    /// No small board can be played in any more and nobody won.
    Tie,
    /// The game goes on.
    InProgress,
}

/// The status a successful move leaves behind, given the grid after the mark
/// is placed: a metaboard line wins for the mover; otherwise the game is
/// tied when no small board can be played in any more, else it goes on.
pub open spec fn status_after(ng: Seq<Seq<Option<Player>>>, mover: Player) -> Status {
    if line_winner(meta_of(ng)) is Some {
        Status::Winner(mover)
    } else if !any_playable(ng) {
        Status::Tie
    } else {
        Status::InProgress
    }
}

/// The mirror rule: after a move on cell `c`, small board `c` is the sole
/// legal board when it can still be played in; otherwise every playable
/// board is legal.
pub open spec fn legal_after(ng: Seq<Seq<Option<Player>>>, c: int) -> Set<int> {
    if playable(ng[c]) {
        set![c]
    } else {
        playable_boards(ng)
    }
}

/// A Super Tic-Tac-Toe game: the player to move, the board aggregate, the
/// set of small boards the current player may choose from, and the status.
#[derive(Debug)]
pub struct STTT {
    player: Player,
    board: Board,
    valid_boards: Vec<bool>,
    status: Status,
}

impl STTT {
    /// The player whose turn it is.
    pub closed spec fn turn(&self) -> Player {
        self.player
    }

    /// The current status of the game.
    pub closed spec fn game_status(&self) -> Status {
        self.status
    }

    /// The grid of cells of the nine small boards.
    pub closed spec fn grid(&self) -> Seq<Seq<Option<Player>>> {
        self.board.grid()
    }

    /// The indices of the small boards the current player may play in.
    pub closed spec fn valid_set(&self) -> Set<int> {
        Set::new(|i: int| 0 <= i < 9 && self.valid_boards@[i])
    }

    /// The metaboard of the game's grid.
    pub open spec fn meta(&self) -> Seq<Option<Player>> {
        meta_of(self.grid())
    }

    /// The game's invariant: the board aggregate is well formed, and while
    /// the game is in progress the metaboard has no winner and the
    /// legal-board set is a non-empty set of playable boards.
    pub closed spec fn wf(&self) -> bool {
        &&& self.board.wf()
        &&& self.valid_boards@.len() == 9
        &&& (self.status is InProgress ==> line_winner(meta_of(self.board.grid())) is None)
        &&& (self.status is InProgress ==> forall|i: int|
            0 <= i < 9 && #[trigger] self.valid_boards@[i] ==> playable(self.board.grid()[i]))
        &&& (self.status is InProgress ==> exists|i: int|
            0 <= i < 9 && #[trigger] self.valid_boards@[i])
    }

    /// Why `play(player, position)` would be rejected in the current state,
    /// or `None` when it must succeed.  The checks happen in this order:
    /// terminal state, turn, position range, legal board, occupied cell.
    pub open spec fn move_error(&self, player: Player, position: u32) -> Option<MoveError> {
        if !(self.game_status() is InProgress) {
            Some(MoveError::AlreadyFinished)
        } else if player != self.turn() {
            Some(MoveError::WrongTurn)
        } else if position >= 81 {
            Some(MoveError::PositionOutOfRange)
        } else if !self.valid_set().contains(position as int / 9) {
            Some(MoveError::IllegalBoard)
        } else if self.grid()[position as int / 9][position as int % 9] is Some {
            Some(MoveError::CellOccupied)
        } else {
            None
        }
    }

    /// The grid after `player` marks the cell addressed by `position`.
    pub open spec fn grid_after(&self, player: Player, position: u32) -> Seq<Seq<Option<Player>>> {
        next_grid(self.grid(), position as int / 9, position as int % 9, player)
    }

    /// The legal-board invariant: while the game is in progress, the
    /// legal-board set is a non-empty set of boards that can still be played
    /// in, and the metaboard has no winner yet.
    pub proof fn lemma_legal_boards_playable(&self)
        requires
            self.wf(),
            self.game_status() is InProgress,
        ensures
            forall|i: int|
                self.valid_set().contains(i) ==> 0 <= i < 9 && playable(self.grid()[i]),
            exists|i: int| self.valid_set().contains(i),
            line_winner(self.meta()) is None,
    {
        let i = choose|i: int| 0 <= i < 9 && self.valid_boards@[i];
        assert(self.valid_set().contains(i));
    }

    /// A well-formed game carries a well-formed grid: nine small boards of
    /// nine cells each.
    pub proof fn lemma_grid_wf(&self)
        requires
            self.wf(),
        ensures
            crate::board::grid_wf(self.grid()),
    {
        self.board.lemma_wf_grid();
    }

    /// A fresh game: empty board, `X` to move, every board legal.
    pub fn new() -> (g: STTT)
        ensures
            g.wf(),
            g.turn() == Player::X,
            g.game_status() == Status::InProgress,
            g.valid_set() == (Set::new(|i: int| 0 <= i < 9)),
            forall|b: int, c: int| 0 <= b < 9 && 0 <= c < 9 ==> g.grid()[b][c] is None,
    {
        let board = Board::new();
        let mut valid_boards: Vec<bool> = Vec::new();
        let mut i: usize = 0;
        while i < 9
            invariant
                i <= 9,
                valid_boards@.len() == i as int,
                forall|j: int| 0 <= j < i ==> valid_boards@[j],
            decreases 9 - i,
        {
            valid_boards.push(true);
            i += 1;
        }
        let g = STTT { player: Player::X, board, valid_boards, status: Status::InProgress };
        proof {
            assert forall|b: int| 0 <= b < 9 implies playable(#[trigger] g.grid()[b]) by {
                assert(g.grid()[b][0] is None);
            }
            assert(forall|b: int| 0 <= b < 9 ==> #[trigger] meta_of(g.grid())[b] is None);
            assert(g.valid_boards@[0]);
            assert(g.valid_set() =~= Set::new(|i: int| 0 <= i < 9));
        }
        g
    }

    /// The player whose turn it is.
    pub fn player(&self) -> (p: Player)
        ensures
            p == self.turn(),
    {
        self.player
    }

    /// A copy of the game's board aggregate.
    pub fn board(&self) -> (b: Board)
        requires
            self.wf(),
        ensures
            b.wf(),
            b.grid() == self.grid(),
    {
        self.board.clone()
    }

    /// The opponent of the player whose turn it is.
    fn next_player(&self) -> (p: Player)
        ensures
            p == self.turn().spec_other(),
    {
        match self.player {
            Player::X => Player::O,
            Player::O => Player::X,
        }
    }

    /// Makes `player` play at the absolute `position` in `0..81`.
    ///
    /// On success the mark is written, the small-board and metaboard
    /// outcomes are re-evaluated, and the returned status tells whether the
    /// game was won by the mover, ended in a tie, or goes on with the
    /// opponent to move and the legal-board set given by the mirror rule.
    /// Every rejection leaves the game completely unchanged.
    pub fn play(&mut self, player: Player, position: u32) -> (r: Result<Status, MoveError>)
        requires
            old(self).wf(),
        ensures
            final(self).wf(),
            old(self).move_error(player, position) matches Some(e) ==> r == Err::<
                Status,
                MoveError,
            >(e) && final(self).turn() == old(self).turn() && final(self).game_status() == old(
                self,
            ).game_status() && final(self).grid() == old(self).grid() && final(self).valid_set()
                == old(self).valid_set(),
            old(self).move_error(player, position) is None ==> ({
                let ng = old(self).grid_after(player, position);
                let st = status_after(ng, player);
                &&& r == Ok::<Status, MoveError>(st)
                &&& final(self).game_status() == st
                &&& final(self).grid() == ng
                &&& final(self).turn() == (if st is InProgress {
                    player.spec_other()
                } else {
                    player
                })
                &&& (st is InProgress ==> final(self).valid_set() == legal_after(
                    ng,
                    position as int % 9,
                ))
                &&& (st is Tie ==> final(self).valid_set() == Set::<int>::empty())
                &&& (st is Winner ==> final(self).valid_set() == old(self).valid_set())
            }),
    {
        match self.status {
            Status::InProgress => {},
            _ => {
                return Err(MoveError::AlreadyFinished);
            },
        }
        if player != self.player {
            return Err(MoveError::WrongTurn);
        }
        if position >= 81 {
            return Err(MoveError::PositionOutOfRange);
        }
        let pos = position as usize;
        let board_idx = pos / 9;
        let tile_idx = pos % 9;
        proof {
            crate::board::lemma_decompose(pos as int);
        }
        if !self.valid_boards[board_idx] {
            return Err(MoveError::IllegalBoard);
        }
        let ghost g0 = old(self).grid();
        let ghost b = board_idx as int;
        let ghost c = tile_idx as int;
        let ghost ng = next_grid(g0, b, c, player);

        let played = self.board.play(board_idx, tile_idx, player);
        if let Err(e) = played {
            return Err(e);
        }
        proof {
            old(self).board.lemma_wf_grid();
            assert(playable(g0[b]));
            lemma_move_meta(g0, b, c, player);
        }

        let meta = self.board.metaboard();
        let winner = Board::check_winner(&meta);
        if let Some(w) = winner {
            proof {
                assert(w == player);
            }
            self.status = Status::Winner(w);
            return Ok(Status::Winner(w));
        }

        let next_board = tile_idx;
        let mut valid: Vec<bool> = Vec::new();
        let mut i: usize = 0;
        while i < 9
            invariant
                i <= 9,
                valid@.len() == i as int,
                forall|j: int| 0 <= j < i ==> !valid@[j],
            decreases 9 - i,
        {
            valid.push(false);
            i += 1;
        }
        let mut any = false;
        if self.board.is_open(next_board) {
            valid[next_board] = true;
            any = true;
        } else {
            let mut bd: usize = 0;
            while bd < 9
                invariant
                    bd <= 9,
                    valid@.len() == 9,
                    self.board.wf(),
                    self.board.grid() == ng,
                    forall|j: int| 0 <= j < bd ==> valid@[j] == playable(ng[j]),
                    forall|j: int| bd <= j < 9 ==> !valid@[j],
                    any <==> exists|j: int| 0 <= j < bd && valid@[j],
                decreases 9 - bd,
            {
                if self.board.is_open(bd) {
                    valid[bd] = true;
                    any = true;
                }
                bd += 1;
            }
        }
        if !any {
            proof {
                assert forall|j: int| 0 <= j < 9 implies !(#[trigger] playable(ng[j])) by {
                    assert(!valid@[j]);
                }
                assert(!any_playable(ng));
            }
            self.status = Status::Tie;
            self.valid_boards = valid;
            proof {
                assert(self.valid_set() =~= Set::<int>::empty());
            }
            return Ok(Status::Tie);
        }
        self.valid_boards = valid;
        self.player = self.next_player();
        proof {
            assert(any_playable(ng));
            if playable(ng[c]) {
                assert(self.valid_set() =~= set![c]);
            } else {
                assert(self.valid_set() =~= playable_boards(ng));
            }
        }
        Ok(Status::InProgress)
    }
}

} // verus!
