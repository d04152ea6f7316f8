//! The board cache: the local 64-cell mirror of piece placement that the
//! renderer draws and clicks are resolved against.
use vstd::prelude::*;
use crate::piece::{Color, Piece, PieceKind};

verus! {

/// One cell per square, indexed by `rank * 8 + file`; `None` is an empty square.
pub struct Board {
    cells: Vec<Option<Piece>>,
}

impl View for Board {
    type V = Seq<Option<Piece>>;

    closed spec fn view(&self) -> Seq<Option<Piece>> {
        self.cells@
    }
}

/// Sixty-four empty cells.
pub open spec fn empty_cells() -> Seq<Option<Piece>> {
    Seq::new(64, |i: int| None)
}

/// The kind on file `f` of a back rank at the start of a game: rook, knight,
/// bishop, queen, king, bishop, knight, rook.
pub open spec fn back_rank_kind(f: int) -> PieceKind {
    if f == 0 || f == 7 {
        PieceKind::Rook
    } else if f == 1 || f == 6 {
        PieceKind::Knight
    } else if f == 2 || f == 5 {
        PieceKind::Bishop
    } else if f == 3 {
        PieceKind::Queen
    } else {
        PieceKind::King
    }
}

/// What square `sq` holds at the start of a game.
pub open spec fn initial_cell(sq: int) -> Option<Piece> {
    let rank = sq / 8;
    let file = sq % 8;
    if rank == 0 {
        Some(Piece { color: Color::White, kind: back_rank_kind(file) })
    } else if rank == 1 {
        Some(Piece { color: Color::White, kind: PieceKind::Pawn })
    } else if rank == 6 {
        Some(Piece { color: Color::Black, kind: PieceKind::Pawn })
    } else if rank == 7 {
        Some(Piece { color: Color::Black, kind: back_rank_kind(file) })
    } else {
        None
    }
}

/// The standard starting position.
pub open spec fn initial_cells() -> Seq<Option<Piece>> {
    Seq::new(64, |i: int| initial_cell(i))
}

/// The cells after the piece on `from` has moved to `to`: `to` takes what
/// `from` held and `from` becomes empty.
pub open spec fn moved_cells(cells: Seq<Option<Piece>>, from: int, to: int) -> Seq<Option<Piece>> {
    cells.update(to, cells[from]).update(from, None)
}

fn back_rank_piece(color: Color, file: u8) -> (r: Piece)
    requires
        file < 8,
    ensures
        r == (Piece { color, kind: back_rank_kind(file as int) }),
{
    let kind = if file == 0 || file == 7 {
        PieceKind::Rook
    } else if file == 1 || file == 6 {
        PieceKind::Knight
    } else if file == 2 || file == 5 {
        PieceKind::Bishop
    } else if file == 3 {
        PieceKind::Queen
    } else {
        PieceKind::King
    };
    Piece { color, kind }
}

fn starting_cell(sq: u8) -> (r: Option<Piece>)
    requires
        sq < 64,
    ensures
        r == initial_cell(sq as int),
{
    let rank = sq / 8;
    let file = sq % 8;
    if rank == 0 {
        Some(back_rank_piece(Color::White, file))
    } else if rank == 1 {
        Some(Piece { color: Color::White, kind: PieceKind::Pawn })
    } else if rank == 6 {
        Some(Piece { color: Color::Black, kind: PieceKind::Pawn })
    } else if rank == 7 {
        Some(back_rank_piece(Color::Black, file))
    } else {
        None
    }
}

impl Board {
    /// A cache has exactly one cell per square.
    pub open spec fn wf(&self) -> bool {
        self@.len() == 64
    }

    /// A board with every square empty.
    pub fn empty() -> (r: Board)
        ensures
            r@ == empty_cells(),
            r.wf(),
    {
        let mut cells: Vec<Option<Piece>> = Vec::new();
        let mut i: usize = 0;
        while i < 64
            invariant
                i <= 64,
                cells@ == Seq::new(i as nat, |j: int| None::<Piece>),
            decreases 64 - i,
        {
            cells.push(None);
            i = i + 1;
            assert(cells@ =~= Seq::new(i as nat, |j: int| None::<Piece>));
        }
        Board { cells }
    }

    /// The standard starting position, laid out square by square.
    pub fn initial() -> (r: Board)
        ensures
            r@ == initial_cells(),
            r.wf(),
    {
        let mut cells: Vec<Option<Piece>> = Vec::new();
        let mut i: u8 = 0;
        while i < 64
            invariant
                i <= 64,
                cells@ == Seq::new(i as nat, |j: int| initial_cell(j)),
            decreases 64 - i,
        {
            cells.push(starting_cell(i));
            i = i + 1;
            assert(cells@ =~= Seq::new(i as nat, |j: int| initial_cell(j)));
        }
        Board { cells }
    }

    /// What square `sq` holds.
    pub fn get(&self, sq: u8) -> (r: Option<Piece>)
        requires
            self.wf(),
            sq < 64,
        ensures
            r == self@[sq as int],
    {
        self.cells[sq as usize]
    }

    /// Puts `cell` on square `sq`, leaving every other square as it was.
    pub fn set(&mut self, sq: u8, cell: Option<Piece>)
        requires
            old(self).wf(),
            sq < 64,
        ensures
            final(self)@ == old(self)@.update(sq as int, cell),
            final(self).wf(),
    {
        self.cells.set(sq as usize, cell);
    }

    /// Records a move that the rules engine has accepted: the piece on
    /// `from` goes to `to`, replacing what stood there, and `from` is emptied.
    pub fn apply_move(&mut self, from: u8, to: u8)
        requires
            old(self).wf(),
            from < 64,
            to < 64,
        ensures
            final(self)@ == moved_cells(old(self)@, from as int, to as int),
            final(self).wf(),
    {
        let moving = self.get(from);
        self.set(to, moving);
        self.set(from, None);
    }
}

} // verus!
