//! Piece colors, piece kinds and the symbol table shared by decoding and
//! encoding of position strings.
use vstd::prelude::*;

verus! {

/// The two sides of a chess game.
#[derive(PartialEq, Eq, Structural, Clone, Copy, Debug, Hash)]
pub enum Color {
    White,
    Black,
}

/// The six kinds of chess pieces.
#[derive(PartialEq, Eq, Structural, Clone, Copy, Debug, Hash)]
pub enum PieceKind {
    Pawn,
    Knight,
    Bishop,
    Rook,
    Queen,
    King,
}

/// An occupant of a square: a color and a kind.
#[derive(PartialEq, Eq, Structural, Clone, Copy, Debug, Hash)]
pub struct Piece {
    pub color: Color,
    pub kind: PieceKind,
}

/// The other side.
pub open spec fn opposite(c: Color) -> Color {
    match c {
        Color::White => Color::Black,
        Color::Black => Color::White,
    }
}

/// The lowercase letter that stands for a kind in a position string.
pub open spec fn kind_symbol(k: PieceKind) -> char {
    match k {
        PieceKind::Pawn => 'p',
        PieceKind::Knight => 'n',
        PieceKind::Bishop => 'b',
        PieceKind::Rook => 'r',
        PieceKind::Queen => 'q',
        PieceKind::King => 'k',
    }
}

/// The kind that a lowercase letter stands for, if any.
pub open spec fn kind_of_symbol(c: char) -> Option<PieceKind> {
    if c == 'p' {
        Some(PieceKind::Pawn)
    } else if c == 'n' {
        Some(PieceKind::Knight)
    } else if c == 'b' {
        Some(PieceKind::Bishop)
    } else if c == 'r' {
        Some(PieceKind::Rook)
    } else if c == 'q' {
        Some(PieceKind::Queen)
    } else if c == 'k' {
        Some(PieceKind::King)
    } else {
        None
    }
}

/// The ASCII lowercase form of a character; other characters are unchanged.
pub open spec fn ascii_lower(c: char) -> char {
    if 'A' <= c && c <= 'Z' {
        ((c as u32) + 32) as char
    } else {
        c
    }
}

/// The piece that a character of a position string stands for: uppercase
/// letters are white pieces, lowercase letters black ones.
pub open spec fn piece_of_symbol(c: char) -> Option<Piece> {
    match kind_of_symbol(ascii_lower(c)) {
        Some(k) => Some(Piece { color: if 'A' <= c && c <= 'Z' { Color::White } else { Color::Black }, kind: k }),
        None => None,
    }
}

/// The character that stands for a piece in a position string.
pub open spec fn piece_symbol(p: Piece) -> char {
    match p.color {
        Color::White => ascii_upper(kind_symbol(p.kind)),
        Color::Black => kind_symbol(p.kind),
    }
}

/// The ASCII uppercase form of a lowercase ASCII letter; other characters are unchanged.
pub open spec fn ascii_upper(c: char) -> char {
    if 'a' <= c && c <= 'z' {
        ((c as u32) - 32) as char
    } else {
        c
    }
}

impl Color {
    /// The side that moves after this one.
    pub fn other(self) -> (r: Color)
        ensures
            r == opposite(self),
    {
        match self {
            Color::White => Color::Black,
            Color::Black => Color::White,
        }
    }

    /// The name shown to players for this side.
    pub fn label(self) -> (r: &'static str)
        ensures
            self == Color::White ==> r@ == "White"@,
            self == Color::Black ==> r@ == "Black"@,
    {
        match self {
            Color::White => "White",
            Color::Black => "Black",
        }
    }
}

impl PieceKind {
    /// The lowercase letter of this kind in a position string.
    pub fn symbol(self) -> (r: char)
        ensures
            r == kind_symbol(self),
    {
        match self {
            PieceKind::Pawn => 'p',
            PieceKind::Knight => 'n',
            PieceKind::Bishop => 'b',
            PieceKind::Rook => 'r',
            PieceKind::Queen => 'q',
            PieceKind::King => 'k',
        }
    }

    /// The kind a lowercase letter stands for; `None` for any other character.
    pub fn from_symbol(c: char) -> (r: Option<PieceKind>)
        ensures
            r == kind_of_symbol(c),
    {
        if c == 'p' {
            Some(PieceKind::Pawn)
        } else if c == 'n' {
            Some(PieceKind::Knight)
        } else if c == 'b' {
            Some(PieceKind::Bishop)
        } else if c == 'r' {
            Some(PieceKind::Rook)
        } else if c == 'q' {
            Some(PieceKind::Queen)
        } else if c == 'k' {
            Some(PieceKind::King)
        } else {
            None
        }
    }
}

impl Piece {
    /// The piece a character of a position string stands for, or `None` when
    /// the character is not one of the twelve piece letters.
    pub fn from_symbol(c: char) -> (r: Option<Piece>)
        ensures
            r == piece_of_symbol(c),
    {
        let upper = 'A' <= c && c <= 'Z';
        let lower = if upper {
            char_from_code((c as u32) + 32)
        } else {
            c
        };
        match PieceKind::from_symbol(lower) {
            Some(kind) => Some(Piece { color: if upper { Color::White } else { Color::Black }, kind }),
            None => None,
        }
    }

    /// The character that stands for this piece in a position string.
    pub fn symbol(self) -> (r: char)
        ensures
            r == piece_symbol(self),
    {
        let c = self.kind.symbol();
        match self.color {
            Color::White => char_from_code((c as u32) - 32),
            Color::Black => c,
        }
    }
}

/// The ASCII character with the given code.
pub(crate) fn char_from_code(code: u32) -> (r: char)
    requires
        code < 128,
    ensures
        r == code as char,
{
    (code as u8) as char
}

/// Decoding undoes encoding: the symbol of a piece stands for that piece.
pub proof fn lemma_symbol_round_trip(p: Piece)
    ensures
        piece_of_symbol(piece_symbol(p)) == Some(p),
{
}

/// Encoding undoes decoding on every character that stands for a piece.
pub proof fn lemma_symbol_inverse(c: char)
    requires
        piece_of_symbol(c) is Some,
    ensures
        piece_symbol(piece_of_symbol(c)->Some_0) == c,
{
}

} // verus!
