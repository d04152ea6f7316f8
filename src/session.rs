//! The selection/move state machine. A click on one of the mover's own
//! pieces selects it; a later click elsewhere asks the rules engine for a
//! move, whose verdict is handed back to settle the board and the turn.
use vstd::prelude::*;
use crate::board::{moved_cells, Board};
use crate::coords::{pixel_to_square, NO_SQUARE};
use crate::piece::{opposite, Color, Piece};
use crate::turn::TurnTracker;

verus! {

/// Whether a piece is picked up.
#[derive(PartialEq, Eq, Structural, Clone, Copy, Debug)]
pub enum Selection {
    Idle,
    Selected { square: u8, piece: Piece },
}

/// What the caller must do after a click.
#[derive(PartialEq, Eq, Structural, Clone, Copy, Debug)]
pub enum Action {
    /// Nothing: the click selected a piece or was ignored.
    Nothing,
    /// Ask the rules engine to move from `from` to `to`, then report its
    /// verdict through `Session::move_piece`.
    RequestMove { from: u8, to: u8 },
}

/// The state a session stands for: the board cache, the side to move and
/// the current selection.
pub struct SessionState {
    pub cells: Seq<Option<Piece>>,
    pub to_move: Color,
    pub selection: Selection,
}

impl SessionState {
    /// The cache has one cell per square, and a selected square holds the
    /// selected piece, which belongs to the side to move.
    pub open spec fn wf(self) -> bool {
        &&& self.cells.len() == 64
        &&& match self.selection {
            Selection::Idle => true,
            Selection::Selected { square, piece } => {
                &&& square < 64
                &&& self.cells[square as int] == Some(piece)
                &&& piece.color == self.to_move
            },
        }
    }
}

/// Whether square `sq` holds a piece of the side to move.
pub open spec fn holds_own_piece(s: SessionState, sq: int) -> bool {
    match s.cells[sq] {
        Some(p) => p.color == s.to_move,
        None => false,
    }
}

/// The state and action after a click on square `sq`. A square off the
/// board changes nothing. One of the mover's own pieces is selected, in
/// place of any earlier selection. Any other square, while a piece is
/// selected, asks for a move there and keeps the state until the verdict
/// comes; with nothing selected it changes nothing.
pub open spec fn click_step(s: SessionState, sq: int) -> (SessionState, Action) {
    if !(0 <= sq < 64) {
        (s, Action::Nothing)
    } else if holds_own_piece(s, sq) {
        (
            SessionState { selection: Selection::Selected { square: sq as u8, piece: s.cells[sq]->Some_0 }, ..s },
            Action::Nothing,
        )
    } else {
        match s.selection {
            Selection::Selected { square, .. } => (s, Action::RequestMove { from: square, to: sq as u8 }),
            Selection::Idle => (s, Action::Nothing),
        }
    }
}

/// The state after the rules engine's verdict on a move of the selected
/// piece to `to`. An accepted move is applied to the cache and hands the
/// turn over; either way the selection is cleared. With nothing selected
/// the state is unchanged.
pub open spec fn verdict_step(s: SessionState, to: int, accepted: bool) -> SessionState {
    match s.selection {
        Selection::Selected { square, .. } => if accepted {
            SessionState {
                cells: moved_cells(s.cells, square as int, to),
                to_move: opposite(s.to_move),
                selection: Selection::Idle,
            }
        } else {
            SessionState { selection: Selection::Idle, ..s }
        },
        Selection::Idle => s,
    }
}

/// The interactive state of one game: board cache, turn tracker and selection.
pub struct Session {
    board: Board,
    turn: TurnTracker,
    selection: Selection,
}

impl View for Session {
    type V = SessionState;

    closed spec fn view(&self) -> SessionState {
        SessionState { cells: self.board@, to_move: self.turn@, selection: self.selection }
    }
}

impl Session {
    /// The starting position, white to move, nothing selected.
    pub fn new() -> (r: Session)
        ensures
            r@.cells == crate::board::initial_cells(),
            r@.to_move == Color::White,
            r@.selection == Selection::Idle,
            r@.wf(),
    {
        Session { board: Board::initial(), turn: TurnTracker::new(), selection: Selection::Idle }
    }

    /// The board cache.
    pub fn board(&self) -> (r: &Board)
        ensures
            r@ == self@.cells,
    {
        &self.board
    }

    /// The side to move.
    pub fn to_move(&self) -> (r: Color)
        ensures
            r == self@.to_move,
    {
        self.turn.current()
    }

    /// The current selection.
    pub fn selection(&self) -> (r: Selection)
        ensures
            r == self@.selection,
    {
        self.selection
    }

    /// The selected square, or `NO_SQUARE` when nothing is selected.
    pub fn selected_square(&self) -> (r: u8)
        ensures
            match self@.selection {
                Selection::Selected { square, .. } => r == square,
                Selection::Idle => r == NO_SQUARE,
            },
    {
        match self.selection {
            Selection::Selected { square, .. } => square,
            Selection::Idle => NO_SQUARE,
        }
    }

    /// Handles a left click on square `sq` (`NO_SQUARE` for a click off the
    /// board).
    pub fn click_square(&mut self, sq: u8) -> (r: Action)
        requires
            old(self)@.wf(),
        ensures
            (final(self)@, r) == click_step(old(self)@, sq as int),
            final(self)@.wf(),
    {
        if sq >= 64 {
            return Action::Nothing;
        }
        let mover = self.turn.current();
        match self.board.get(sq) {
            Some(p) => {
                if p.color == mover {
                    self.selection = Selection::Selected { square: sq, piece: p };
                    return Action::Nothing;
                }
            },
            None => {},
        }
        match self.selection {
            Selection::Selected { square, .. } => Action::RequestMove { from: square, to: sq },
            Selection::Idle => Action::Nothing,
        }
    }

    /// Handles a left click at pixel `(x, y)`.
    pub fn click_pixel(&mut self, x: i64, y: i64) -> (r: Action)
        requires
            old(self)@.wf(),
        ensures
            (final(self)@, r) == click_step(
                old(self)@,
                crate::coords::square_at_pixel(x as int, y as int),
            ),
            final(self)@.wf(),
    {
        let sq = pixel_to_square(x, y);
        self.click_square(sq)
    }

    /// Settles a requested move of the selected piece to `to`, given whether
    /// the rules engine took it. A move it took is applied to the board and
    /// passes the turn; the selection is cleared either way.
    pub fn move_piece(&mut self, to: u8, accepted: bool)
        requires
            old(self)@.wf(),
            to < 64,
        ensures
            final(self)@ == verdict_step(old(self)@, to as int, accepted),
            final(self)@.wf(),
    {
        match self.selection {
            Selection::Selected { square, .. } => {
                if accepted {
                    self.board.apply_move(square, to);
                    self.turn.advance();
                }
                self.selection = Selection::Idle;
            },
            Selection::Idle => {},
        }
    }
}

/// From an idle state, a click on one of the mover's own pieces selects that
/// square and piece, asks for nothing, and leaves the turn and the cache alone.
pub proof fn lemma_select_own_piece(s: SessionState, sq: int)
    requires
        s.wf(),
        s.selection == Selection::Idle,
        0 <= sq < 64,
        holds_own_piece(s, sq),
    ensures
        click_step(s, sq).0.selection == (Selection::Selected { square: sq as u8, piece: s.cells[sq]->Some_0 }),
        click_step(s, sq).0.to_move == s.to_move,
        click_step(s, sq).0.cells == s.cells,
        click_step(s, sq).1 == Action::Nothing,
{
}

/// With a piece selected, a click on a square that is not the mover's own
/// asks for that move; when the rules engine rejects it, the state returns to
/// idle with the cache and the turn unchanged.
pub proof fn lemma_rejected_move(s: SessionState, sq: int)
    requires
        s.wf(),
        s.selection is Selected,
        0 <= sq < 64,
        !holds_own_piece(s, sq),
    ensures
        click_step(s, sq).1 == (Action::RequestMove { from: s.selection->square, to: sq as u8 }),
        verdict_step(click_step(s, sq).0, sq, false).selection == Selection::Idle,
        verdict_step(click_step(s, sq).0, sq, false).cells == s.cells,
        verdict_step(click_step(s, sq).0, sq, false).to_move == s.to_move,
{
}

/// An accepted move leaves the selection idle, hands the turn over, moves the
/// selected piece to its destination and empties the square it left.
pub proof fn lemma_accepted_move(s: SessionState, to: int)
    requires
        s.wf(),
        s.selection is Selected,
        0 <= to < 64,
        to != s.selection->square,
    ensures
        verdict_step(s, to, true).selection == Selection::Idle,
        verdict_step(s, to, true).to_move == opposite(s.to_move),
        verdict_step(s, to, true).cells[to] == Some(s.selection->piece),
        verdict_step(s, to, true).cells[s.selection->square as int] == None::<Piece>,
        verdict_step(s, to, true).wf(),
{
}

} // verus!
