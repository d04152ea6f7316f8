//! The turn tracker: whose move it is.
use vstd::prelude::*;
use crate::piece::{opposite, Color};

verus! {

/// Records the side to move. It changes only when a move is accepted.
pub struct TurnTracker {
    to_move: Color,
}

impl View for TurnTracker {
    type V = Color;

    closed spec fn view(&self) -> Color {
        self.to_move
    }
}

impl TurnTracker {
    /// White moves first.
    pub fn new() -> (r: TurnTracker)
        ensures
            r@ == Color::White,
    {
        TurnTracker { to_move: Color::White }
    }

    /// The side to move.
    pub fn current(&self) -> (r: Color)
        ensures
            r == self@,
    {
        self.to_move
    }

    /// Hands the move to the other side.
    pub fn advance(&mut self)
        ensures
            final(self)@ == opposite(old(self)@),
    {
        self.to_move = self.to_move.other();
    }
}

} // verus!
