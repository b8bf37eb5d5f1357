//! The board and the messages of the game as text.

use crate::board::{cell_char, BoardItem, GameState};
use vstd::prelude::*;

verus! {

/// What is said when a match begins.
pub const WELCOME: &'static str =
    "Taking turns, type a number between 0 and 8 (in order from topleft to bottom right)\n";

/// What is said of a line that names no free cell.
pub const INVALID: &'static str = "Invalid input...\n";

/// What is said when the board is full and nobody has won.
pub const DRAWN: &'static str = "It's a draw!\n";

/// The question after a match.
pub const PLAY_AGAIN: &'static str = "Play again? [y/n] ";

/// What is said when the session ends.
pub const FAREWELL: &'static str = "Thanks for playing! <3\n";

/// The line of seven hyphens that frames the rows.
pub open spec fn rule() -> Seq<char> {
    Seq::new(7, |i: int| '-')
}

/// Row `r` of the board: its three cells between bars.
pub open spec fn row_line(board: Seq<BoardItem>, r: int) -> Seq<char> {
    seq![
        '|',
        cell_char(board[3 * r]),
        '|',
        cell_char(board[3 * r + 1]),
        '|',
        cell_char(board[3 * r + 2]),
        '|',
    ]
}

/// The seven lines of the drawn board: a rule, then each row with a rule
/// after it.
pub open spec fn board_lines(board: Seq<BoardItem>) -> Seq<Seq<char>> {
    seq![
        rule(),
        row_line(board, 0),
        rule(),
        row_line(board, 1),
        rule(),
        row_line(board, 2),
        rule(),
    ]
}

/// The lines one after another, each closed by a line feed.
pub open spec fn lines_text(lines: Seq<Seq<char>>) -> Seq<char>
    decreases lines.len(),
{
    if lines.len() == 0 {
        Seq::empty()
    } else {
        lines_text(lines.drop_last()) + lines.last().push('\n')
    }
}

/// The drawn board as one text.
pub open spec fn board_text(board: Seq<BoardItem>) -> Seq<char> {
    lines_text(board_lines(board))
}

/// The prompt for the player with marker `m`; no line feed closes it.
pub open spec fn prompt_text(m: char) -> Seq<char> {
    "["@.push(m) + "]: "@
}

/// The announcement that the player with marker `m` has won.
pub open spec fn wins_text(m: char) -> Seq<char> {
    "'"@.push(m) + "' wins!\n"@
}

/// `String::push` of std: the string is as before, with `c` added at its
/// end.
#[verifier::external_body]
fn push_char(s: &mut String, c: char)
    ensures
        final(s)@ == old(s)@.push(c),
{
    s.push(c);
}

/// The character that a cell shows.
pub fn cell_mark(item: BoardItem) -> (c: char)
    ensures
        c == cell_char(item),
{
    match item {
        BoardItem::Empty => ' ',
        BoardItem::Full(m) => m,
    }
}

impl GameState {
    /// Row `r` of the board as a line of text.
    pub fn draw_row(&self, r: usize) -> (line: String)
        requires
            r < 3,
        ensures
            line@ == row_line(self.board@, r as int),
    {
        let mut line = String::new();
        let mut col: usize = 0;
        push_char(&mut line, '|');
        while col < 3
            invariant
                r < 3,
                col <= 3,
                line@.len() == 1 + 2 * col,
                line@ == row_line(self.board@, r as int).take(1 + 2 * col),
            decreases 3 - col,
        {
            push_char(&mut line, cell_mark(self.board[3 * r + col]));
            push_char(&mut line, '|');
            col += 1;
        }
        line
    }

    /// The board as seven lines of text, without line feeds.
    pub fn draw(&self) -> (lines: Vec<String>)
        ensures
            lines.deep_view() == board_lines(self.board@),
    {
        let mut lines: Vec<String> = Vec::new();
        let mut r: usize = 0;
        lines.push(rule_line());
        while r < 3
            invariant
                r <= 3,
                lines@.len() == 1 + 2 * r,
                forall|i: int|
                    0 <= i < lines@.len() ==> (#[trigger] lines@[i])@ == board_lines(
                        self.board@,
                    )[i],
            decreases 3 - r,
        {
            lines.push(self.draw_row(r));
            lines.push(rule_line());
            r += 1;
        }
        lines
    }

    /// The drawn board as one text, each line closed by a line feed.
    pub fn draw_text(&self) -> (text: String)
        ensures
            text@ == board_text(self.board@),
    {
        let lines = self.draw();
        let mut text = String::new();
        let mut i: usize = 0;
        while i < lines.len()
            invariant
                i <= lines.len(),
                text@ == lines_text(lines.deep_view().take(i as int)),
            decreases lines.len() - i,
        {
            text.append(lines[i].as_str());
            push_char(&mut text, '\n');
            i += 1;
            assert(lines.deep_view().take(i as int).drop_last() =~= lines.deep_view().take(
                i - 1,
            ));
        }
        assert(lines.deep_view().take(i as int) =~= lines.deep_view());
        text
    }
}

/// The line of seven hyphens.
pub fn rule_line() -> (line: String)
    ensures
        line@ == rule(),
{
    let line = String::from_str("-------");
    proof {
        reveal_strlit("-------");
    }
    line
}

/// The prompt for the player with marker `m`.
pub fn prompt(m: char) -> (text: String)
    ensures
        text@ == prompt_text(m),
{
    let mut text = String::from_str("[");
    push_char(&mut text, m);
    text.append("]: ");
    text
}

/// The announcement that the player with marker `m` has won.
pub fn wins(m: char) -> (text: String)
    ensures
        text@ == wins_text(m),
{
    let mut text = String::from_str("'");
    push_char(&mut text, m);
    text.append("' wins!\n");
    text
}

} // verus!
