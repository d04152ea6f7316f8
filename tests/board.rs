use schack::board::Board;
use schack::piece::{Color, Piece, PieceKind};

fn white(kind: PieceKind) -> Option<Piece> {
    Some(Piece { color: Color::White, kind })
}

fn black(kind: PieceKind) -> Option<Piece> {
    Some(Piece { color: Color::Black, kind })
}

#[test]
fn empty_board() {
    let b = Board::empty();
    for sq in 0..64u8 {
        assert_eq!(b.get(sq), None);
    }
}

#[test]
fn initial_layout() {
    let b = Board::initial();
    let back = [
        PieceKind::Rook,
        PieceKind::Knight,
        PieceKind::Bishop,
        PieceKind::Queen,
        PieceKind::King,
        PieceKind::Bishop,
        PieceKind::Knight,
        PieceKind::Rook,
    ];
    for f in 0..8u8 {
        assert_eq!(b.get(f), white(back[f as usize]));
        assert_eq!(b.get(8 + f), white(PieceKind::Pawn));
        assert_eq!(b.get(48 + f), black(PieceKind::Pawn));
        assert_eq!(b.get(56 + f), black(back[f as usize]));
    }
    for sq in 16..48u8 {
        assert_eq!(b.get(sq), None);
    }
    assert_eq!(b.get(4), white(PieceKind::King));
    assert_eq!(b.get(59), black(PieceKind::Queen));
}

#[test]
fn apply_move_to_empty_square() {
    let mut b = Board::initial();
    b.apply_move(12, 28);
    assert_eq!(b.get(12), None);
    assert_eq!(b.get(28), white(PieceKind::Pawn));
    assert_eq!(b.get(4), white(PieceKind::King));
}

#[test]
fn apply_move_captures() {
    let mut b = Board::initial();
    b.apply_move(0, 56);
    assert_eq!(b.get(0), None);
    assert_eq!(b.get(56), white(PieceKind::Rook));
}

#[test]
fn set_cell() {
    let mut b = Board::empty();
    b.set(27, black(PieceKind::King));
    assert_eq!(b.get(27), black(PieceKind::King));
    b.set(27, None);
    assert_eq!(b.get(27), None);
}
