//! Plain-text rendering of the board: the nine small boards in a 3x3
//! super-grid, with the metaboard summary beside the middle super-row.
//!
//! The whole picture is specified character for character: `render_spec`
//! assembles, from the grid alone, exactly the text that `to_text` builds,
//! and the layout is fixed-width, so the picture always has the same size.

use vstd::prelude::*;
use vstd::string::StringExecFns;

use crate::board::{meta_of, Board};
use crate::Player;

verus! {

/// The three-character text of one cell: the player's mark between blanks,
/// or all blanks for an empty cell.
pub open spec fn mark_text(m: Option<Player>) -> Seq<char> {
    match m {
        None => "   "@,
        Some(Player::X) => " X "@,
        Some(Player::O) => " O "@,
    }
}

/// One text row of one small board: two leading blanks and its three cells
/// with column separators (13 characters).
pub open spec fn board_row_text(g: Seq<Seq<Option<Player>>>, b: int, sr: int) -> Seq<char> {
    "  "@ + mark_text(g[b][3 * sr]) + "|"@ + mark_text(g[b][3 * sr + 1]) + "|"@ + mark_text(
        g[b][3 * sr + 2],
    )
}

/// One text row of a whole super-row: the matching row of its three small
/// boards with column separators (45 characters).
pub open spec fn cells_line_text(g: Seq<Seq<Option<Player>>>, base: int, sr: int) -> Seq<char> {
    board_row_text(g, base, sr) + "  |"@ + board_row_text(g, base + 1, sr) + "  |"@
        + board_row_text(g, base + 2, sr)
}

/// One row of the metaboard summary: the gap and three metaboard cells with
/// column separators (25 characters).
pub open spec fn meta_row_text(m: Seq<Option<Player>>, sr: int) -> Seq<char> {
    "              "@ + mark_text(m[3 * sr]) + "|"@ + mark_text(m[3 * sr + 1]) + "|"@ + mark_text(
        m[3 * sr + 2],
    )
}

/// The blank line that opens and closes every super-row.
pub open spec fn empty_line_text() -> Seq<char> {
    "               |               |\n"@
}

/// The cell-separator line of a super-row.
pub open spec fn sep_line_text() -> Seq<char> {
    "  ---+---+---  |  ---+---+---  |  ---+---+---\n"@
}

/// The cell-separator line of the middle super-row, with the metaboard
/// summary's separator alongside.
pub open spec fn meta_sep_line_text() -> Seq<char> {
    "  ---+---+---  |  ---+---+---  |  ---+---+---              ---+---+---\n"@
}

/// The whole picture, character for character: three super-rows of three
/// cell rows each, the super-row dividers, and the metaboard summary with
/// its title beside the middle super-row.
pub open spec fn render_spec(g: Seq<Seq<Option<Player>>>) -> Seq<char> {
    empty_line_text() + cells_line_text(g, 0, 0) + "\n"@ + sep_line_text() + cells_line_text(
        g,
        0,
        1,
    ) + "\n"@ + sep_line_text() + cells_line_text(g, 0, 2) + "\n"@ + empty_line_text()
        + "---------------+---------------+---------------             metaboard\n"@
        + empty_line_text() + cells_line_text(g, 3, 0) + meta_row_text(meta_of(g), 0) + "\n"@
        + meta_sep_line_text() + cells_line_text(g, 3, 1) + meta_row_text(meta_of(g), 1) + "\n"@
        + meta_sep_line_text() + cells_line_text(g, 3, 2) + meta_row_text(meta_of(g), 2) + "\n"@
        + empty_line_text() + "---------------+---------------+---------------\n"@
        + empty_line_text() + cells_line_text(g, 6, 0) + "\n"@ + sep_line_text()
        + cells_line_text(g, 6, 1) + "\n"@ + sep_line_text() + cells_line_text(g, 6, 2) + "\n"@
        + empty_line_text()
}

/// The three-character rendering of one cell.
fn mark_str(m: Option<Player>) -> (r: &'static str)
    ensures
        r@ == mark_text(m),
        r@.len() == 3,
{
    match m {
        None => {
            proof {
                reveal_strlit("   ");
            }
            "   "
        },
        Some(Player::X) => {
            proof {
                reveal_strlit(" X ");
            }
            " X "
        },
        Some(Player::O) => {
            proof {
                reveal_strlit(" O ");
            }
            " O "
        },
    }
}

/// Appends the blank line that opens and closes a super-row (33 characters
/// with the newline).
fn push_empty_line(res: &mut String)
    ensures
        final(res)@ == old(res)@ + empty_line_text(),
        final(res)@.len() == old(res)@.len() + 33,
{
    proof {
        reveal_strlit("               |               |\n");
    }
    res.append("               |               |\n");
}

/// Appends one row of one small board: two leading blanks and three cells
/// with separators (13 characters).
fn push_board_cells(res: &mut String, board: &Board, board_idx: usize, small_row: usize)
    requires
        board.wf(),
        board_idx < 9,
        small_row < 3,
    ensures
        final(res)@ == old(res)@ + board_row_text(
            board.grid(),
            board_idx as int,
            small_row as int,
        ),
        final(res)@.len() == old(res)@.len() + 13,
{
    proof {
        reveal_strlit("  ");
        reveal_strlit("|");
    }
    let base = small_row * 3;
    res.append("  ");
    res.append(mark_str(board.cell(board_idx, base)));
    res.append("|");
    res.append(mark_str(board.cell(board_idx, base + 1)));
    res.append("|");
    res.append(mark_str(board.cell(board_idx, base + 2)));
    proof {
        assert(res@ =~= old(res)@ + board_row_text(
            board.grid(),
            board_idx as int,
            small_row as int,
        ));
    }
}

/// Appends one text row of a whole super-row: the matching row of its three
/// small boards with column separators (45 characters, no newline).
fn push_cells_line(res: &mut String, board: &Board, base: usize, small_row: usize)
    requires
        board.wf(),
        base <= 6,
        small_row < 3,
    ensures
        final(res)@ == old(res)@ + cells_line_text(board.grid(), base as int, small_row as int),
        final(res)@.len() == old(res)@.len() + 45,
{
    proof {
        reveal_strlit("  |");
    }
    push_board_cells(res, board, base, small_row);
    res.append("  |");
    push_board_cells(res, board, base + 1, small_row);
    res.append("  |");
    push_board_cells(res, board, base + 2, small_row);
    proof {
        assert(res@ =~= old(res)@ + cells_line_text(
            board.grid(),
            base as int,
            small_row as int,
        ));
    }
}

/// Appends one row of the metaboard summary: the gap and three metaboard
/// cells with separators (25 characters, no newline).
fn push_meta_cells(res: &mut String, meta: &Vec<Option<Player>>, small_row: usize)
    requires
        meta@.len() == 9,
        small_row < 3,
    ensures
        final(res)@ == old(res)@ + meta_row_text(meta@, small_row as int),
        final(res)@.len() == old(res)@.len() + 25,
{
    proof {
        reveal_strlit("              ");
        reveal_strlit("|");
    }
    let base = small_row * 3;
    res.append("              ");
    res.append(mark_str(meta[base]));
    res.append("|");
    res.append(mark_str(meta[base + 1]));
    res.append("|");
    res.append(mark_str(meta[base + 2]));
    proof {
        assert(res@ =~= old(res)@ + meta_row_text(meta@, small_row as int));
    }
}

impl Board {
    /// Renders the whole board as fixed-width ASCII text: the nine small
    /// boards in a 3x3 super-grid, with the metaboard summary beside the
    /// middle super-row.  The text is exactly `render_spec` of the grid,
    /// and always holds exactly 1131 characters.
    pub fn to_text(&self) -> (r: String)
        requires
            self.wf(),
        ensures
            r@ == render_spec(self.grid()),
            r@.len() == 1131,
    {
        proof {
            reveal_strlit("\n");
            reveal_strlit("  ---+---+---  |  ---+---+---  |  ---+---+---\n");
            reveal_strlit("  ---+---+---  |  ---+---+---  |  ---+---+---              ---+---+---\n");
            reveal_strlit("---------------+---------------+---------------             metaboard\n");
            reveal_strlit("---------------+---------------+---------------\n");
        }
        let meta = self.metaboard();
        let mut res = String::new();

        // Top super-row.
        push_empty_line(&mut res);
        proof {
            assert(Seq::<char>::empty() + empty_line_text() =~= empty_line_text());
        }
        push_cells_line(&mut res, self, 0, 0);
        res.append("\n");
        res.append("  ---+---+---  |  ---+---+---  |  ---+---+---\n");
        push_cells_line(&mut res, self, 0, 1);
        res.append("\n");
        res.append("  ---+---+---  |  ---+---+---  |  ---+---+---\n");
        push_cells_line(&mut res, self, 0, 2);
        res.append("\n");
        push_empty_line(&mut res);
        res.append("---------------+---------------+---------------             metaboard\n");

        // Middle super-row, with the metaboard summary alongside.
        push_empty_line(&mut res);
        push_cells_line(&mut res, self, 3, 0);
        push_meta_cells(&mut res, &meta, 0);
        res.append("\n");
        res.append("  ---+---+---  |  ---+---+---  |  ---+---+---              ---+---+---\n");
        push_cells_line(&mut res, self, 3, 1);
        push_meta_cells(&mut res, &meta, 1);
        res.append("\n");
        res.append("  ---+---+---  |  ---+---+---  |  ---+---+---              ---+---+---\n");
        push_cells_line(&mut res, self, 3, 2);
        push_meta_cells(&mut res, &meta, 2);
        res.append("\n");
        push_empty_line(&mut res);
        res.append("---------------+---------------+---------------\n");

        // Bottom super-row.
        push_empty_line(&mut res);
        push_cells_line(&mut res, self, 6, 0);
        res.append("\n");
        res.append("  ---+---+---  |  ---+---+---  |  ---+---+---\n");
        push_cells_line(&mut res, self, 6, 1);
        res.append("\n");
        res.append("  ---+---+---  |  ---+---+---  |  ---+---+---\n");
        push_cells_line(&mut res, self, 6, 2);
        res.append("\n");
        push_empty_line(&mut res);

        proof {
            assert(res@ == render_spec(self.grid()));
        }
        res
    }
}

} // verus!
