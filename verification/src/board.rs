//! The board model: a 3x3 grid of 3x3 small boards, the derived metaboard of
//! resolved sub-game outcomes, and the shared line-detection rule.

use vstd::prelude::*;

use crate::MoveError;
use crate::Player;

verus! {

/// The resolved state of a small board, or of the metaboard.
#[derive(Copy, Clone, Debug, PartialEq, Eq, Structural)]
pub enum Outcome {
    /// No complete line yet and at least one empty cell.
    Undecided,
    /// The player completed a line of three marks.
    Won(Player),
    /// All nine cells are occupied and no line exists.
    Drawn,
}

/// The marks at `a`, `b`, `c` form a complete line: all three hold the same
/// non-empty mark.
pub open spec fn complete_line(s: Seq<Option<Player>>, a: int, b: int, c: int) -> bool {
    s[a] is Some && s[a] == s[b] && s[b] == s[c]
}

/// The three marks at `a`, `b`, `c` all belong to player `p`.
pub open spec fn player_line(s: Seq<Option<Player>>, p: Player, a: int, b: int, c: int) -> bool {
    s[a] == Some(p) && s[b] == Some(p) && s[c] == Some(p)
}

/// The winner of a nine-cell board under the fixed scan order: the three
/// rows, then the three columns, then the two diagonals.  The first complete
/// line found decides; `None` when no line is complete.
pub open spec fn line_winner(s: Seq<Option<Player>>) -> Option<Player> {
    if complete_line(s, 0, 1, 2) {
        s[0]
    } else if complete_line(s, 3, 4, 5) {
        s[3]
    } else if complete_line(s, 6, 7, 8) {
        s[6]
    } else if complete_line(s, 0, 3, 6) {
        s[0]
    } else if complete_line(s, 1, 4, 7) {
        s[1]
    } else if complete_line(s, 2, 5, 8) {
        s[2]
    } else if complete_line(s, 0, 4, 8) {
        s[0]
    } else if complete_line(s, 2, 4, 6) {
        s[2]
    } else {
        None
    }
}

/// Player `p` owns some complete line of the board.
pub open spec fn has_line(s: Seq<Option<Player>>, p: Player) -> bool {
    ||| player_line(s, p, 0, 1, 2)
    ||| player_line(s, p, 3, 4, 5)
    ||| player_line(s, p, 6, 7, 8)
    ||| player_line(s, p, 0, 3, 6)
    ||| player_line(s, p, 1, 4, 7)
    ||| player_line(s, p, 2, 5, 8)
    ||| player_line(s, p, 0, 4, 8)
    ||| player_line(s, p, 2, 4, 6)
}

/// All nine cells hold a mark.
pub open spec fn board_full(s: Seq<Option<Player>>) -> bool {
    forall|i: int| 0 <= i < 9 ==> s[i] is Some
}

/// The outcome of a nine-cell board: a winner if some line is complete,
/// drawn if the board is full without a line, undecided otherwise.
pub open spec fn outcome_of(s: Seq<Option<Player>>) -> Outcome {
    match line_winner(s) {
        Some(p) => Outcome::Won(p),
        None => if board_full(s) {
            Outcome::Drawn
        } else {
            Outcome::Undecided
        },
    }
}

/// A board can still be played in: nobody has won it and it has an empty cell.
pub open spec fn playable(s: Seq<Option<Player>>) -> bool {
    line_winner(s) is None && exists|i: int| 0 <= i < 9 && s[i] is None
}

/// A scan that reports a winner really found a line of that player.
pub proof fn lemma_winner_has_line(s: Seq<Option<Player>>, p: Player)
    requires
        line_winner(s) == Some(p),
    ensures
        has_line(s, p),
{
}

/// A complete line for some player means the scan reports a winner.
pub proof fn lemma_has_line_winner(s: Seq<Option<Player>>, p: Player)
    requires
        has_line(s, p),
    ensures
        line_winner(s) is Some,
{
}

/// Writing one mark of `p` into a board without a winner can only leave the
/// board winnerless or make `p` the winner; it never produces a winner other
/// than the player who just moved.
pub proof fn lemma_mark_keeps_winner(s: Seq<Option<Player>>, i: int, p: Player)
    requires
        s.len() == 9,
        0 <= i < 9,
        line_winner(s) is None,
    ensures
        line_winner(s.update(i, Some(p))) is None || line_winner(s.update(i, Some(p)))
            == Some(p),
{
    let s2 = s.update(i, Some(p));
    match line_winner(s2) {
        Some(q) => {
            lemma_winner_has_line(s2, q);
            if q != p {
                assert(has_line(s, q));
                lemma_has_line_winner(s, q);
            }
        },
        None => {},
    }
}

/// The full grid of cells: nine small boards of nine cells each.
pub open spec fn grid_wf(g: Seq<Seq<Option<Player>>>) -> bool {
    g.len() == 9 && forall|i: int| 0 <= i < 9 ==> (#[trigger] g[i]).len() == 9
}

/// The metaboard derived from a grid: one mark per small board, held by the
/// player who won that board, empty while the board is undecided or drawn.
pub open spec fn meta_of(g: Seq<Seq<Option<Player>>>) -> Seq<Option<Player>> {
    Seq::new(9, |i: int| line_winner(g[i]))
}

/// The grid after player `p` marks cell `c` of small board `b`.
pub open spec fn next_grid(g: Seq<Seq<Option<Player>>>, b: int, c: int, p: Player) -> Seq<
    Seq<Option<Player>>,
> {
    g.update(b, g[b].update(c, Some(p)))
}

/// The indices of the small boards that can still be played in.
pub open spec fn playable_boards(g: Seq<Seq<Option<Player>>>) -> Set<int> {
    Set::new(|i: int| 0 <= i < 9 && playable(g[i]))
}

/// Some small board of the grid can still be played in.
pub open spec fn any_playable(g: Seq<Seq<Option<Player>>>) -> bool {
    exists|i: int| 0 <= i < 9 && playable(g[i])
}

/// A single mark by player `p` on a winnerless small board of a winnerless
/// metaboard never hands the metaboard to the opponent: afterwards the
/// metaboard either still has no winner or is won by `p`.
pub proof fn lemma_move_meta(g: Seq<Seq<Option<Player>>>, b: int, c: int, p: Player)
    requires
        grid_wf(g),
        0 <= b < 9,
        0 <= c < 9,
        line_winner(g[b]) is None,
        line_winner(meta_of(g)) is None,
    ensures
        line_winner(meta_of(next_grid(g, b, c, p))) is None || line_winner(
            meta_of(next_grid(g, b, c, p)),
        ) == Some(p),
{
    let g2 = next_grid(g, b, c, p);
    let m1 = meta_of(g);
    let m2 = meta_of(g2);
    lemma_mark_keeps_winner(g[b], c, p);
    if line_winner(g2[b]) is None {
        assert(m2 =~= m1);
    } else {
        assert(line_winner(g2[b]) == Some(p));
        assert(m2 =~= m1.update(b, Some(p)));
        lemma_mark_keeps_winner(m1, b, p);
    }
}

/// An absolute cell index in `0..81`, decomposed into the small board it
/// falls in (row-major) and the cell within that board (row-major).
#[derive(Copy, Clone, Debug, PartialEq, Eq, Structural)]
pub struct Position {
    board_idx: usize,
    tile_idx: usize,
}

impl Position {
    /// Which of the nine small boards the position falls in.
    pub closed spec fn board_index(&self) -> int {
        self.board_idx as int
    }

    /// Which cell of that small board the position falls on.
    pub closed spec fn tile_index(&self) -> int {
        self.tile_idx as int
    }

    /// Both indices lie in `0..9`.
    pub open spec fn wf(&self) -> bool {
        0 <= self.board_index() < 9 && 0 <= self.tile_index() < 9
    }

    /// Decomposes an absolute cell index: board `absolute / 9`, cell
    /// `absolute % 9`.  Fails for any value at or above 81.
    pub fn from_absolute(absolute: usize) -> (r: Result<Position, MoveError>)
        ensures
            absolute < 81 ==> (r matches Ok(p) && p.wf() && p.board_index() == absolute as int / 9
                && p.tile_index() == absolute as int % 9),
            absolute >= 81 ==> r == Err::<Position, MoveError>(MoveError::PositionOutOfRange),
    {
        if absolute >= 81 {
            return Err(MoveError::PositionOutOfRange);
        }
        let board_idx = absolute / 9;
        let tile_idx = absolute % 9;
        proof {
            lemma_decompose(absolute as int);
        }
        Ok(Position { board_idx, tile_idx })
    }

    /// The index of the small board.
    pub fn board_idx(&self) -> (b: usize)
        ensures
            b as int == self.board_index(),
    {
        self.board_idx
    }

    /// The index of the cell within the small board.
    pub fn tile_idx(&self) -> (t: usize)
        ensures
            t as int == self.tile_index(),
    {
        self.tile_idx
    }
}

/// Every absolute position below 81 decomposes into a board index and a cell
/// index in `0..9`, and `board * 9 + cell` recovers the position.
pub proof fn lemma_decompose(p: int)
    requires
        0 <= p < 81,
    ensures
        0 <= p / 9 < 9,
        0 <= p % 9 < 9,
        (p / 9) * 9 + p % 9 == p,
{
    vstd::arithmetic::div_mod::lemma_fundamental_div_mod(p, 9);
}

/// The decomposition is unique: a board index and a cell index in `0..9`
/// compose to `board * 9 + cell`, and that position decomposes back to
/// exactly the same pair.
pub proof fn lemma_compose(b: int, c: int)
    requires
        0 <= b < 9,
        0 <= c < 9,
    ensures
        0 <= b * 9 + c < 81,
        (b * 9 + c) / 9 == b,
        (b * 9 + c) % 9 == c,
{
    vstd::arithmetic::div_mod::lemma_fundamental_div_mod_converse(b * 9 + c, 9, b, c);
}

/// The metaboard moves monotonically: a mark by player `p` in a small board
/// that nobody has won leaves every other metaboard cell exactly as it was,
/// and that board's own cell either stays empty or becomes `p`'s; a
/// metaboard cell never reverts.
pub proof fn lemma_meta_monotonic(g: Seq<Seq<Option<Player>>>, b: int, c: int, p: Player)
    requires
        grid_wf(g),
        0 <= b < 9,
        0 <= c < 9,
        line_winner(g[b]) is None,
    ensures
        forall|i: int|
            0 <= i < 9 && i != b ==> meta_of(next_grid(g, b, c, p))[i] == meta_of(g)[i],
        meta_of(next_grid(g, b, c, p))[b] is None || meta_of(next_grid(g, b, c, p))[b]
            == Some(p),
{
    lemma_mark_keeps_winner(g[b], c, p);
}

/// One small 3x3 board: a fixed row-major sequence of nine cells, each empty
/// or holding the mark of the player who played it.
#[derive(Debug)]
pub struct SmallBoard {
    cells: Vec<Option<Player>>,
}

impl View for SmallBoard {
    type V = Seq<Option<Player>>;

    closed spec fn view(&self) -> Seq<Option<Player>> {
        self.cells@
    }
}

impl SmallBoard {
    /// The board holds exactly nine cells.
    pub open spec fn wf(&self) -> bool {
        self@.len() == 9
    }

    /// A fresh board with all nine cells empty.
    pub fn new() -> (r: SmallBoard)
        ensures
            r.wf(),
            forall|i: int| 0 <= i < 9 ==> r@[i] is None,
    {
        let mut cells: Vec<Option<Player>> = Vec::new();
        let mut i: usize = 0;
        while i < 9
            invariant
                i <= 9,
                cells@.len() == i as int,
                forall|j: int| 0 <= j < i ==> cells@[j] is None,
            decreases 9 - i,
        {
            cells.push(None);
            i += 1;
        }
        SmallBoard { cells }
    }

    /// The mark at cell `i`.
    pub fn cell(&self, i: usize) -> (r: Option<Player>)
        requires
            self.wf(),
            i < 9,
        ensures
            r == self@[i as int],
    {
        self.cells[i]
    }

    /// Writes the mark of `player` into cell `i`.
    fn set_cell(&mut self, i: usize, player: Player)
        requires
            old(self).wf(),
            i < 9,
        ensures
            final(self).wf(),
            final(self)@ == old(self)@.update(i as int, Some(player)),
    {
        self.cells[i] = Some(player);
    }

    /// The winner of this board under the fixed scan order, if any.
    pub fn winner(&self) -> (r: Option<Player>)
        requires
            self.wf(),
        ensures
            r == line_winner(self@),
    {
        Board::check_winner(&self.cells)
    }

    /// Whether every cell holds a mark.
    fn full(&self) -> (r: bool)
        requires
            self.wf(),
        ensures
            r == board_full(self@),
    {
        let mut i: usize = 0;
        while i < 9
            invariant
                i <= 9,
                self.wf(),
                forall|j: int| 0 <= j < i ==> self@[j] is Some,
            decreases 9 - i,
        {
            if self.cells[i].is_none() {
                return false;
            }
            i += 1;
        }
        true
    }

    /// The resolved outcome of this board: won, drawn, or still undecided.
    pub fn outcome(&self) -> (r: Outcome)
        requires
            self.wf(),
        ensures
            r == outcome_of(self@),
    {
        match self.winner() {
            Some(p) => Outcome::Won(p),
            None => if self.full() {
                Outcome::Drawn
            } else {
                Outcome::Undecided
            },
        }
    }

    /// Whether a move can still be made here: true exactly when the outcome
    /// is neither a win nor a draw.
    pub fn is_playable(&self) -> (r: bool)
        requires
            self.wf(),
        ensures
            r == playable(self@),
            r == (outcome_of(self@) is Undecided),
    {
        match self.winner() {
            Some(_) => false,
            None => !self.full(),
        }
    }

    /// Places the mark of `player` at `cell_idx` and reports the (possibly
    /// newly resolved) outcome of this board.  Fails without a change when
    /// the index is out of range or the cell already holds a mark.  Turn
    /// order is the caller's concern, not this board's.
    pub fn place(&mut self, cell_idx: usize, player: Player) -> (r: Result<Outcome, MoveError>)
        requires
            old(self).wf(),
        ensures
            final(self).wf(),
            cell_idx >= 9 ==> r == Err::<Outcome, MoveError>(MoveError::PositionOutOfRange)
                && final(self)@ == old(self)@,
            cell_idx < 9 && old(self)@[cell_idx as int] is Some ==> r == Err::<
                Outcome,
                MoveError,
            >(MoveError::CellOccupied) && final(self)@ == old(self)@,
            cell_idx < 9 && old(self)@[cell_idx as int] is None ==> final(self)@ == old(
                self,
            )@.update(cell_idx as int, Some(player)) && r == Ok::<Outcome, MoveError>(
                outcome_of(final(self)@)),
    {
        if cell_idx >= 9 {
            return Err(MoveError::PositionOutOfRange);
        }
        if self.cells[cell_idx].is_some() {
            return Err(MoveError::CellOccupied);
        }
        self.set_cell(cell_idx, player);
        Ok(self.outcome())
    }
}

impl Clone for SmallBoard {
    /// The copy holds exactly the same nine cells.
    fn clone(&self) -> (r: Self)
        ensures
            r@ == self@,
    {
        let mut cells: Vec<Option<Player>> = Vec::new();
        let mut i: usize = 0;
        while i < self.cells.len()
            invariant
                i <= self.cells.len(),
                cells@.len() == i as int,
                forall|j: int| 0 <= j < i ==> cells@[j] == self.cells@[j],
            decreases self.cells.len() - i,
        {
            cells.push(self.cells[i]);
            i += 1;
        }
        proof {
            assert(cells@ =~= self.cells@);
        }
        SmallBoard { cells }
    }
}

/// The aggregate of the nine small boards, in row-major order.
#[derive(Debug)]
pub struct Board {
    boards: Vec<SmallBoard>,
}

impl Clone for Board {
    /// The copy holds exactly the same grid of cells.
    fn clone(&self) -> (r: Self)
        ensures
            self.wf() ==> r.wf() && r.grid() == self.grid(),
    {
        let mut boards: Vec<SmallBoard> = Vec::new();
        let mut i: usize = 0;
        while i < self.boards.len()
            invariant
                i <= self.boards.len(),
                boards@.len() == i as int,
                forall|j: int| 0 <= j < i ==> (#[trigger] boards@[j])@ == self.boards@[j]@
                    && boards@[j].wf() == self.boards@[j].wf(),
            decreases self.boards.len() - i,
        {
            boards.push(self.boards[i].clone());
            i += 1;
        }
        let r = Board { boards };
        proof {
            if self.wf() {
                assert(r.grid() =~= self.grid());
            }
        }
        r
    }
}

impl Board {
    /// The grid of cells: the view of each small board, in order.
    pub closed spec fn grid(&self) -> Seq<Seq<Option<Player>>> {
        Seq::new(9, |i: int| self.boards@[i]@)
    }

    /// The aggregate holds exactly nine small boards of nine cells each.
    pub closed spec fn wf(&self) -> bool {
        self.boards@.len() == 9 && forall|i: int| 0 <= i < 9 ==> (#[trigger] self.boards@[i]).wf()
    }

    /// A well-formed aggregate carries a well-formed grid.
    pub proof fn lemma_wf_grid(&self)
        requires
            self.wf(),
        ensures
            grid_wf(self.grid()),
    {
    }

    /// A fresh board with all 81 cells empty.
    pub fn new() -> (r: Board)
        ensures
            r.wf(),
            forall|b: int, c: int| 0 <= b < 9 && 0 <= c < 9 ==> r.grid()[b][c] is None,
    {
        let mut boards: Vec<SmallBoard> = Vec::new();
        let mut i: usize = 0;
        while i < 9
            invariant
                i <= 9,
                boards@.len() == i as int,
                forall|j: int| 0 <= j < i ==> (#[trigger] boards@[j]).wf(),
                forall|j: int, c: int| 0 <= j < i && 0 <= c < 9 ==> boards@[j]@[c] is None,
            decreases 9 - i,
        {
            boards.push(SmallBoard::new());
            i += 1;
        }
        Board { boards }
    }

    /// The winner of a nine-cell board under the fixed scan order: rows,
    /// then columns, then diagonals; the first complete line decides.
    pub fn check_winner(marks: &Vec<Option<Player>>) -> (r: Option<Player>)
        requires
            marks@.len() == 9,
        ensures
            r == line_winner(marks@),
    {
        if let Some(p) = Self::line_at(marks, 0, 1, 2) {
            return Some(p);
        }
        if let Some(p) = Self::line_at(marks, 3, 4, 5) {
            return Some(p);
        }
        if let Some(p) = Self::line_at(marks, 6, 7, 8) {
            return Some(p);
        }
        if let Some(p) = Self::line_at(marks, 0, 3, 6) {
            return Some(p);
        }
        if let Some(p) = Self::line_at(marks, 1, 4, 7) {
            return Some(p);
        }
        if let Some(p) = Self::line_at(marks, 2, 5, 8) {
            return Some(p);
        }
        if let Some(p) = Self::line_at(marks, 0, 4, 8) {
            return Some(p);
        }
        if let Some(p) = Self::line_at(marks, 2, 4, 6) {
            return Some(p);
        }
        None
    }

    /// The mark at `a` when `a`, `b`, `c` form a complete line, else `None`.
    fn line_at(marks: &Vec<Option<Player>>, a: usize, b: usize, c: usize) -> (r: Option<Player>)
        requires
            marks@.len() == 9,
            a < 9,
            b < 9,
            c < 9,
        ensures
            r == (if complete_line(marks@, a as int, b as int, c as int) {
                marks@[a as int]
            } else {
                Option::<Player>::None
            }),
    {
        let ma = marks[a];
        let mb = marks[b];
        let mc = marks[c];
        match (ma, mb, mc) {
            (Some(x), Some(y), Some(z)) => if x == y && y == z {
                Some(x)
            } else {
                None
            },
            _ => None,
        }
    }

    /// The metaboard: for each small board, the mark of the player who won
    /// it, or empty while it is undecided or drawn.
    pub fn metaboard(&self) -> (r: Vec<Option<Player>>)
        requires
            self.wf(),
        ensures
            r@ == meta_of(self.grid()),
    {
        let mut marks: Vec<Option<Player>> = Vec::new();
        let mut i: usize = 0;
        while i < 9
            invariant
                i <= 9,
                self.wf(),
                marks@.len() == i as int,
                forall|j: int| 0 <= j < i ==> marks@[j] == line_winner(self.grid()[j]),
            decreases 9 - i,
        {
            marks.push(self.boards[i].winner());
            i += 1;
        }
        proof {
            assert(marks@ =~= meta_of(self.grid()));
        }
        marks
    }

    /// The mark at cell `tile_idx` of small board `board_idx`.
    pub fn cell(&self, board_idx: usize, tile_idx: usize) -> (r: Option<Player>)
        requires
            self.wf(),
            board_idx < 9,
            tile_idx < 9,
        ensures
            r == self.grid()[board_idx as int][tile_idx as int],
    {
        self.boards[board_idx].cell(tile_idx)
    }

    /// Whether small board `board_idx` can still be played in.
    pub fn is_open(&self, board_idx: usize) -> (r: bool)
        requires
            self.wf(),
            board_idx < 9,
        ensures
            r == playable(self.grid()[board_idx as int]),
    {
        self.boards[board_idx].is_playable()
    }

    /// Places the mark of `player` at cell `tile_idx` of small board
    /// `board_idx` and reports that board's outcome.  Fails without a change
    /// when an index is out of range or the cell already holds a mark.
    pub fn play(&mut self, board_idx: usize, tile_idx: usize, player: Player) -> (r: Result<
        Outcome,
        MoveError,
    >)
        requires
            old(self).wf(),
        ensures
            final(self).wf(),
            board_idx >= 9 || tile_idx >= 9 ==> r == Err::<Outcome, MoveError>(
                MoveError::PositionOutOfRange,
            ) && final(self).grid() == old(self).grid(),
            board_idx < 9 && tile_idx < 9 && old(self).grid()[board_idx as int][tile_idx as int]
                is Some ==> r == Err::<Outcome, MoveError>(MoveError::CellOccupied)
                && final(self).grid() == old(self).grid(),
            board_idx < 9 && tile_idx < 9 && old(self).grid()[board_idx as int][tile_idx as int]
                is None ==> final(self).grid() == next_grid(
                old(self).grid(),
                board_idx as int,
                tile_idx as int,
                player,
            ) && r == Ok::<Outcome, MoveError>(
                outcome_of(final(self).grid()[board_idx as int]),
            ),
    {
        if board_idx >= 9 || tile_idx >= 9 {
            return Err(MoveError::PositionOutOfRange);
        }
        let mut small = self.boards.remove(board_idx);
        let r = small.place(tile_idx, player);
        self.boards.insert(board_idx, small);
        proof {
            assert(self.boards@ =~= old(self).boards@.update(
                board_idx as int,
                self.boards@[board_idx as int],
            ));
            if old(self).grid()[board_idx as int][tile_idx as int] is None {
                assert(self.grid() =~= next_grid(
                    old(self).grid(),
                    board_idx as int,
                    tile_idx as int,
                    player,
                ));
            } else {
                assert(self.grid() =~= old(self).grid());
            }
        }
        r
    }
}

} // verus!
