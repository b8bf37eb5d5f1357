//! The board, its cells, and the rules that judge a position.

use vstd::prelude::*;

verus! {

/// What one cell of the board holds.
#[derive(Clone, Copy, Debug, PartialEq, Eq, Structural)]
pub enum BoardItem {
    Empty,
    Full(char),
}

/// How a position stands after a move.
#[derive(Clone, Copy, Debug, PartialEq, Eq, Structural)]
pub enum EndTurn {
    Win(char),
    Draw,
    Continue,
}

/// The two markers. The marker of turn `t` is `MARKERS[t % 2]`.
pub const MARKERS: [char; 2] = ['O', 'X'];

/// The eight lines of three cells, in the order in which they are examined.
pub const COMBINATIONS: [[usize; 3]; 8] = [
    [0, 1, 2],
    [0, 3, 6],
    [0, 4, 8],
    [3, 4, 5],
    [1, 4, 7],
    [2, 4, 6],
    [6, 7, 8],
    [2, 5, 8],
];

/// The nine cells, row by row: cell `3 * row + col`.
#[derive(Clone, Copy, Debug, PartialEq, Eq)]
pub struct GameState {
    pub board: [BoardItem; 9],
}

/// The board on which nothing has been placed.
pub open spec fn empty_board() -> Seq<BoardItem> {
    Seq::new(9, |i: int| BoardItem::Empty)
}

/// A move to cell `n` is allowed: the cell exists and is empty.
pub open spec fn valid_move(board: Seq<BoardItem>, n: int) -> bool {
    0 <= n < 9 && board[n] == BoardItem::Empty
}

/// Line `k` of the eight, as its three cells; the order is that of
/// `COMBINATIONS`.
pub open spec fn triple(k: int) -> (int, int, int) {
    if k == 0 {
        (0, 1, 2)
    } else if k == 1 {
        (0, 3, 6)
    } else if k == 2 {
        (0, 4, 8)
    } else if k == 3 {
        (3, 4, 5)
    } else if k == 4 {
        (1, 4, 7)
    } else if k == 5 {
        (2, 4, 6)
    } else if k == 6 {
        (6, 7, 8)
    } else {
        (2, 5, 8)
    }
}

/// The three cells of line `t` hold one and the same marker.
pub open spec fn completes(board: Seq<BoardItem>, t: (int, int, int)) -> bool {
    &&& board[t.0] != BoardItem::Empty
    &&& board[t.0] == board[t.1]
    &&& board[t.1] == board[t.2]
}

/// The first complete line at or after line `from`; 8 where there is none.
pub open spec fn first_complete(board: Seq<BoardItem>, from: int) -> int
    decreases 8 - from,
{
    if from >= 8 {
        8
    } else if completes(board, triple(from)) {
        from
    } else {
        first_complete(board, from + 1)
    }
}

/// No cell is empty.
pub open spec fn is_full(board: Seq<BoardItem>) -> bool {
    forall|i: int| 0 <= i < board.len() ==> board[i] != BoardItem::Empty
}

/// The character a cell shows: its marker, or a space where it is empty.
pub open spec fn cell_char(item: BoardItem) -> char {
    match item {
        BoardItem::Empty => ' ',
        BoardItem::Full(m) => m,
    }
}

/// The verdict on a position: the marker of the first complete line wins;
/// with no complete line a full board is a draw, and any other goes on.
pub open spec fn outcome(board: Seq<BoardItem>) -> EndTurn {
    let k = first_complete(board, 0);
    if k < 8 {
        EndTurn::Win(cell_char(board[triple(k).0]))
    } else if is_full(board) {
        EndTurn::Draw
    } else {
        EndTurn::Continue
    }
}

impl GameState {
    /// A game with an empty board.
    pub fn new() -> (g: GameState)
        ensures
            g.board@ == empty_board(),
    {
        GameState { board: [BoardItem::Empty; 9] }
    }

    /// Whether a marker may be placed on cell `n`.
    pub fn validate_inpu(&self, n: usize) -> (ok: bool)
        ensures
            ok == valid_move(self.board@, n as int),
    {
        n < 9 && self.board[n] == BoardItem::Empty
    }

    /// Places `marker` on cell `n`, which must be free.
    pub fn place(&mut self, n: usize, marker: char)
        requires
            valid_move(old(self).board@, n as int),
        ensures
            final(self).board@ == old(self).board@.update(n as int, BoardItem::Full(marker)),
    {
        self.board[n] = BoardItem::Full(marker);
    }

    /// Judges the position: a win for the marker of the first complete line,
    /// a draw, or a game that goes on.
    pub fn check_win(&self) -> (end: EndTurn)
        ensures
            end == outcome(self.board@),
    {
        let mut k: usize = 0;
        while k < 8
            invariant
                k <= 8,
                first_complete(self.board@, 0) == first_complete(self.board@, k as int),
            decreases 8 - k,
        {
            let c = COMBINATIONS[k];
            let first = self.board[c[0]];
            match first {
                BoardItem::Full(m) => {
                    if self.board[c[1]] == first && self.board[c[2]] == first {
                        return EndTurn::Win(m);
                    }
                },
                BoardItem::Empty => {},
            }
            k += 1;
        }
        let mut i: usize = 0;
        while i < 9
            invariant
                i <= 9,
                first_complete(self.board@, 0) == 8,
                forall|j: int| 0 <= j < i ==> self.board@[j] != BoardItem::Empty,
            decreases 9 - i,
        {
            if self.board[i] == BoardItem::Empty {
                return EndTurn::Continue;
            }
            i += 1;
        }
        EndTurn::Draw
    }
}

} // verus!
