//! What holds of the verdict on every board, and of every session.

use crate::board::{
    cell_char, completes, empty_board, first_complete, is_full, outcome, triple, BoardItem,
    EndTurn, GameState, COMBINATIONS,
};
use crate::session::{
    chosen_cell, marker_of_turn, placed, run, start_view, step, Phase, SessionView,
};
use vstd::prelude::*;

verus! {

/// Line `k` is entry `k` of `COMBINATIONS`: three different cells of the
/// board.
pub proof fn lemma_triple_in_table(k: int)
    requires
        0 <= k < 8,
    ensures
        triple(k) == (
            COMBINATIONS[k][0] as int,
            COMBINATIONS[k][1] as int,
            COMBINATIONS[k][2] as int,
        ),
        0 <= triple(k).0 < triple(k).1 < triple(k).2 < 9,
{
}

/// The search for a complete line from `from` on ends at a complete line
/// with none between `from` and it, or at 8 with none from `from` on.
pub proof fn lemma_first_complete(board: Seq<BoardItem>, from: int)
    requires
        0 <= from <= 8,
    ensures
        from <= first_complete(board, from) <= 8,
        first_complete(board, from) < 8 ==> completes(
            board,
            triple(first_complete(board, from)),
        ),
        forall|j: int| from <= j < first_complete(board, from) ==> !completes(board, triple(j)),
    decreases 8 - from,
{
    if from < 8 && !completes(board, triple(from)) {
        lemma_first_complete(board, from + 1);
    }
}

/// The verdict depends on the cells alone: two games with the same cells
/// get the same verdict.
pub proof fn lemma_verdict_of_cells(a: GameState, b: GameState)
    requires
        a.board@ == b.board@,
    ensures
        outcome(a.board@) == outcome(b.board@),
{
}

/// A full board without a complete line is a draw.
pub proof fn lemma_full_board_is_draw(board: Seq<BoardItem>)
    requires
        board.len() == 9,
        is_full(board),
        forall|k: int| 0 <= k < 8 ==> !completes(board, triple(k)),
    ensures
        outcome(board) == EndTurn::Draw,
{
    lemma_first_complete(board, 0);
}

/// A board with an empty cell and without a complete line goes on.
pub proof fn lemma_open_board_continues(board: Seq<BoardItem>)
    requires
        board.len() == 9,
        exists|i: int| 0 <= i < 9 && board[i] == BoardItem::Empty,
        forall|k: int| 0 <= k < 8 ==> !completes(board, triple(k)),
    ensures
        outcome(board) == EndTurn::Continue,
{
    lemma_first_complete(board, 0);
}

/// A complete line with no complete line before it wins for its marker.
pub proof fn lemma_first_line_wins(board: Seq<BoardItem>, k: int)
    requires
        0 <= k < 8,
        completes(board, triple(k)),
        forall|j: int| 0 <= j < k ==> !completes(board, triple(j)),
    ensures
        outcome(board) == EndTurn::Win(cell_char(board[triple(k).0])),
{
    lemma_first_complete(board, 0);
}

/// A complete line wins for its marker, unless the first complete line
/// holds another marker.
pub proof fn lemma_complete_line_wins(board: Seq<BoardItem>, k: int)
    requires
        0 <= k < 8,
        completes(board, triple(k)),
        board[triple(first_complete(board, 0)).0] == board[triple(k).0],
    ensures
        outcome(board) == EndTurn::Win(cell_char(board[triple(k).0])),
{
    lemma_first_complete(board, 0);
}

/// Wherever a line is complete the verdict is a win, and the winner's
/// marker fills a complete line.
pub proof fn lemma_win_iff_line(board: Seq<BoardItem>)
    ensures
        (outcome(board) is Win) <==> (exists|k: int| 0 <= k < 8 && completes(board, triple(k))),
        forall|m: char|
            outcome(board) == EndTurn::Win(m) ==> exists|k: int|
                0 <= k < 8 && completes(board, triple(k)) && board[triple(k).0]
                    == BoardItem::Full(m),
{
    lemma_first_complete(board, 0);
}

/// A full board never goes on: its verdict is a win or a draw.
pub proof fn lemma_full_board_ends(board: Seq<BoardItem>)
    requires
        is_full(board),
    ensures
        outcome(board) != EndTurn::Continue,
{
}

/// No more markers are placed than there are cells.
pub proof fn lemma_placed_bound(board: Seq<BoardItem>)
    ensures
        placed(board) <= board.len(),
    decreases board.len(),
{
    if board.len() > 0 {
        lemma_placed_bound(board.drop_last());
    }
}

/// On the empty board no marker is placed.
pub proof fn lemma_placed_none(board: Seq<BoardItem>)
    requires
        forall|i: int| 0 <= i < board.len() ==> board[i] == BoardItem::Empty,
    ensures
        placed(board) == 0,
    decreases board.len(),
{
    if board.len() > 0 {
        lemma_placed_none(board.drop_last());
    }
}

/// A marker on a free cell is one marker more.
pub proof fn lemma_placed_one_more(board: Seq<BoardItem>, n: int, m: char)
    requires
        0 <= n < board.len(),
        board[n] == BoardItem::Empty,
    ensures
        placed(board.update(n, BoardItem::Full(m))) == placed(board) + 1,
    decreases board.len(),
{
    let after = board.update(n, BoardItem::Full(m));
    if n == board.len() - 1 {
        assert(after.drop_last() =~= board.drop_last());
    } else {
        lemma_placed_one_more(board.drop_last(), n, m);
        assert(after.drop_last() =~= board.drop_last().update(n, BoardItem::Full(m)));
    }
}

/// A board with a free cell holds fewer markers than it has cells.
pub proof fn lemma_placed_below(board: Seq<BoardItem>, n: int)
    requires
        0 <= n < board.len(),
        board[n] == BoardItem::Empty,
    ensures
        placed(board) < board.len(),
    decreases board.len(),
{
    if n == board.len() - 1 {
        lemma_placed_bound(board.drop_last());
    } else {
        lemma_placed_below(board.drop_last(), n);
    }
}

/// A session that starts is as it should be.
pub proof fn lemma_start_wf()
    ensures
        start_view().wf(),
{
    let board = empty_board();
    lemma_placed_none(board);
    lemma_first_complete(board, 0);
}

/// A step keeps a session as it should be.
pub proof fn lemma_step_wf(s: SessionView, line: Seq<char>)
    requires
        s.wf(),
    ensures
        step(s, line).0.wf(),
{
    lemma_start_wf();
    if s.phase == Phase::Playing {
        if let Some(n) = chosen_cell(s.board, line) {
            lemma_placed_one_more(s.board, n, marker_of_turn(s.turn));
        }
    }
}

/// A match takes nine turns at most: while it is played a cell is free,
/// and the turn is none after the ninth.
pub proof fn lemma_match_ends(s: SessionView)
    requires
        s.wf(),
    ensures
        placed(s.board) <= 9,
        s.phase == Phase::Playing ==> 1 <= s.turn <= 9,
        s.turn <= 9,
{
    lemma_placed_bound(s.board);
    if s.phase == Phase::Playing {
        let n = choose|i: int| 0 <= i < 9 && s.board[i] == BoardItem::Empty;
        lemma_placed_below(s.board, n);
    }
}

/// The first turn of a match is played with `X`, and the two markers take
/// turns.
pub proof fn lemma_markers_alternate(turn: nat)
    ensures
        marker_of_turn(1) == 'X',
        marker_of_turn(turn) == 'O' || marker_of_turn(turn) == 'X',
        marker_of_turn(turn + 1) != marker_of_turn(turn),
        marker_of_turn(turn + 2) == marker_of_turn(turn),
{
}

/// A line that chooses no free cell changes nothing: the board, the turn
/// and the player to move stay as they are.
pub proof fn lemma_rejected_line(s: SessionView, line: Seq<char>)
    requires
        s.phase == Phase::Playing,
        chosen_cell(s.board, line) is None,
    ensures
        step(s, line).0 == s,
{
}

/// Once a session has ended, further lines change neither the session nor
/// the text.
pub proof fn lemma_run_over(lines: Seq<Seq<char>>, n: nat, m: nat)
    requires
        n <= m,
        run(lines, n).0.phase == Phase::Over,
    ensures
        run(lines, m) == run(lines, n),
    decreases m,
{
    if n < m {
        lemma_run_over(lines, n, (m - 1) as nat);
    }
}

/// Whatever lines are read, the session stays as it should be.
pub proof fn lemma_run_wf(lines: Seq<Seq<char>>, n: nat)
    ensures
        run(lines, n).0.wf(),
    decreases n,
{
    if n == 0 {
        lemma_start_wf();
    } else {
        lemma_run_wf(lines, (n - 1) as nat);
        lemma_step_wf(run(lines, (n - 1) as nat).0, lines[n - 1]);
    }
}

} // verus!
