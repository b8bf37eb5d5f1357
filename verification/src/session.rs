//! A session of matches as a machine: it is started, and then fed the
//! lines that the players type, one at a time. Each step gives the text to
//! show before the next line is read.

use crate::board::{empty_board, outcome, valid_move, BoardItem, EndTurn, GameState, MARKERS};
use crate::input::{declines, number_in, parse_move};
use crate::lemmas::{lemma_match_ends, lemma_run_over, lemma_start_wf, lemma_step_wf};
use crate::render::{
    board_text, prompt, prompt_text, wins, wins_text, DRAWN, FAREWELL, INVALID, PLAY_AGAIN,
    WELCOME,
};
use vstd::prelude::*;

verus! {

/// What a session waits for.
#[derive(Clone, Copy, Debug, PartialEq, Eq, Structural)]
pub enum Phase {
    /// The next move of the match.
    Playing,
    /// The answer to the question whether to play again.
    Asking,
    /// Nothing: the players have declined another match.
    Over,
}

/// A session: the board of the match, the number of the turn, and what the
/// session waits for.
#[derive(Clone, Copy, Debug)]
pub struct Session {
    game: GameState,
    turn: usize,
    phase: Phase,
}

/// A session as a mathematical value.
pub struct SessionView {
    pub board: Seq<BoardItem>,
    pub turn: nat,
    pub phase: Phase,
}

/// How many cells of the board hold a marker.
pub open spec fn placed(board: Seq<BoardItem>) -> nat
    decreases board.len(),
{
    if board.len() == 0 {
        0
    } else {
        placed(board.drop_last()) + if board.last() == BoardItem::Empty {
            0nat
        } else {
            1nat
        }
    }
}

/// The marker of the player who moves in turn `turn`.
pub open spec fn marker_of_turn(turn: nat) -> char {
    MARKERS[(turn % 2) as int]
}

/// The cell that a line chooses on a board: the line holds a number, and
/// the number names a free cell.
pub open spec fn chosen_cell(board: Seq<BoardItem>, line: Seq<char>) -> Option<int> {
    match number_in(line) {
        Some(n) if valid_move(board, n as int) => Some(n as int),
        _ => None,
    }
}

/// The session as it starts a match: an empty board, turn 1.
pub open spec fn start_view() -> SessionView {
    SessionView { board: empty_board(), turn: 1, phase: Phase::Playing }
}

/// What is shown when a match starts: the welcome, the empty board, and
/// the prompt for the first move.
pub open spec fn opening() -> Seq<char> {
    WELCOME@ + board_text(empty_board()) + prompt_text(marker_of_turn(1))
}

/// One step of the session: the session after `line` has been read, and
/// the text to show.
///
/// While a match is played, a line that chooses no free cell changes
/// nothing and is answered by a notice and the same prompt. One that
/// chooses a cell places the marker of the turn there; the board is shown,
/// and then either the prompt of the next turn, or the result and the
/// question whether to play again. An answer with an `n` in it ends the
/// session; any other starts a new match.
pub open spec fn step(s: SessionView, line: Seq<char>) -> (SessionView, Seq<char>) {
    match s.phase {
        Phase::Playing => match chosen_cell(s.board, line) {
            None => (s, INVALID@ + prompt_text(marker_of_turn(s.turn))),
            Some(n) => {
                let board = s.board.update(n, BoardItem::Full(marker_of_turn(s.turn)));
                match outcome(board) {
                    EndTurn::Win(m) => (
                        SessionView { board, turn: s.turn, phase: Phase::Asking },
                        board_text(board) + wins_text(m) + PLAY_AGAIN@,
                    ),
                    EndTurn::Draw => (
                        SessionView { board, turn: s.turn, phase: Phase::Asking },
                        board_text(board) + DRAWN@ + PLAY_AGAIN@,
                    ),
                    EndTurn::Continue => (
                        SessionView { board, turn: s.turn + 1, phase: Phase::Playing },
                        board_text(board) + prompt_text(marker_of_turn(s.turn + 1)),
                    ),
                }
            },
        },
        Phase::Asking => if line.contains('n') {
            (SessionView { board: s.board, turn: s.turn, phase: Phase::Over }, FAREWELL@)
        } else {
            (start_view(), opening())
        },
        Phase::Over => (s, Seq::empty()),
    }
}

/// The session after the first `n` of `lines` have been read, and all the
/// text shown up to then. Lines that come after the session has ended
/// change nothing.
pub open spec fn run(lines: Seq<Seq<char>>, n: nat) -> (SessionView, Seq<char>)
    decreases n,
{
    if n == 0 {
        (start_view(), opening())
    } else {
        let before = run(lines, (n - 1) as nat);
        let now = step(before.0, lines[n - 1]);
        (now.0, before.1 + now.1)
    }
}

impl SessionView {
    /// What holds of every session: the board has nine cells; while a
    /// match is played nobody has won, a cell is free, and the turn is one
    /// more than the markers placed; after it the match is decided, and
    /// the turn is the number of markers placed.
    pub open spec fn wf(self) -> bool {
        &&& self.board.len() == 9
        &&& match self.phase {
            Phase::Playing => {
                &&& outcome(self.board) == EndTurn::Continue
                &&& self.turn == placed(self.board) + 1
            },
            _ => {
                &&& outcome(self.board) != EndTurn::Continue
                &&& self.turn == placed(self.board)
            },
        }
    }
}

impl View for Session {
    type V = SessionView;

    closed spec fn view(&self) -> SessionView {
        SessionView { board: self.game.board@, turn: self.turn as nat, phase: self.phase }
    }
}

impl GameState {
    /// Plays a session on the lines that the players will type: match after
    /// match, until an answer declines another one or the lines run out.
    /// Gives all the text shown, and whether the session has ended; the
    /// board is left as the last match left it.
    pub fn game_loop(&mut self, lines: &Vec<String>) -> (shown: (String, bool))
        ensures
            final(self).board@ == run(lines.deep_view(), lines@.len()).0.board,
            shown.0@ == run(lines.deep_view(), lines@.len()).1,
            shown.1 == (run(lines.deep_view(), lines@.len()).0.phase == Phase::Over),
    {
        let (mut session, mut text) = Session::start();
        let mut i: usize = 0;
        while i < lines.len() && !session.is_over()
            invariant
                i <= lines@.len(),
                (session@, text@) == run(lines.deep_view(), i as nat),
            decreases lines@.len() - i,
        {
            let shown = session.feed(lines[i].as_str());
            text.append(shown.as_str());
            i += 1;
        }
        proof {
            if i < lines@.len() {
                lemma_run_over(lines.deep_view(), i as nat, lines@.len());
            }
        }
        self.board = session.board();
        (text, session.is_over())
    }
}

impl Session {
    #[verifier::type_invariant]
    spec fn inv(self) -> bool {
        self@.wf()
    }

    /// Starts a session with its first match: the session, and the text
    /// to show before the first line is read.
    pub fn start() -> (r: (Session, String))
        ensures
            r.0@ == start_view(),
            r.0@.wf(),
            r.1@ == opening(),
    {
        proof {
            lemma_start_wf();
        }
        let game = GameState::new();
        let mut text = String::from_str(WELCOME);
        text.append(game.draw_text().as_str());
        text.append(prompt(MARKERS[1]).as_str());
        (Session { game, turn: 1, phase: Phase::Playing }, text)
    }

    /// Takes the line that was read, and gives the text to show before the
    /// next line is read.
    pub fn feed(&mut self, line: &str) -> (text: String)
        ensures
            (final(self)@, text@) == step(old(self)@, line@),
            final(self)@.wf(),
    {
        proof {
            use_type_invariant(&*self);
            lemma_step_wf(self@, line@);
            lemma_match_ends(self@);
        }
        match self.phase {
            Phase::Playing => {
                let marker = MARKERS[self.turn % 2];
                let cell = match parse_move(line) {
                    Ok(n) => if self.game.validate_inpu(n) {
                        Some(n)
                    } else {
                        None
                    },
                    Err(_) => None,
                };
                match cell {
                    None => {
                        let mut text = String::from_str(INVALID);
                        text.append(prompt(marker).as_str());
                        text
                    },
                    Some(n) => {
                        let mut game = self.game;
                        game.place(n, marker);
                        let mut text = game.draw_text();
                        match game.check_win() {
                            EndTurn::Win(m) => {
                                text.append(wins(m).as_str());
                                text.append(PLAY_AGAIN);
                                *self = Session { game, turn: self.turn, phase: Phase::Asking };
                            },
                            EndTurn::Draw => {
                                text.append(DRAWN);
                                text.append(PLAY_AGAIN);
                                *self = Session { game, turn: self.turn, phase: Phase::Asking };
                            },
                            EndTurn::Continue => {
                                let turn: usize = self.turn + 1;
                                text.append(prompt(MARKERS[turn % 2]).as_str());
                                *self = Session { game, turn, phase: Phase::Playing };
                            },
                        }
                        text
                    },
                }
            },
            Phase::Asking => {
                if declines(line) {
                    *self = Session { game: self.game, turn: self.turn, phase: Phase::Over };
                    String::from_str(FAREWELL)
                } else {
                    let (next, text) = Session::start();
                    *self = next;
                    text
                }
            },
            Phase::Over => String::new(),
        }
    }

    /// The cells of the board.
    pub fn board(&self) -> (cells: [BoardItem; 9])
        ensures
            cells@ == self@.board,
    {
        self.game.board
    }

    /// The number of the turn: while a match is played, of the turn whose
    /// move is awaited; after it, of its last turn.
    pub fn turn(&self) -> (t: usize)
        ensures
            t == self@.turn,
            self@.wf(),
    {
        proof {
            use_type_invariant(self);
        }
        self.turn
    }

    /// What the session waits for.
    pub fn phase(&self) -> (p: Phase)
        ensures
            p == self@.phase,
    {
        self.phase
    }

    /// Whether the session has ended.
    pub fn is_over(&self) -> (over: bool)
        ensures
            over == (self@.phase == Phase::Over),
    {
        self.phase == Phase::Over
    }
}

} // verus!
