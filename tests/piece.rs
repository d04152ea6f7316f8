use schack::piece::{Color, Piece, PieceKind};

#[test]
fn kind_symbols() {
    assert_eq!(PieceKind::Pawn.symbol(), 'p');
    assert_eq!(PieceKind::Knight.symbol(), 'n');
    assert_eq!(PieceKind::Bishop.symbol(), 'b');
    assert_eq!(PieceKind::Rook.symbol(), 'r');
    assert_eq!(PieceKind::Queen.symbol(), 'q');
    assert_eq!(PieceKind::King.symbol(), 'k');
    assert_eq!(PieceKind::from_symbol('k'), Some(PieceKind::King));
    assert_eq!(PieceKind::from_symbol('K'), None);
    assert_eq!(PieceKind::from_symbol('x'), None);
}

#[test]
fn piece_symbols_by_case() {
    assert_eq!(Piece::from_symbol('Q'), Some(Piece { color: Color::White, kind: PieceKind::Queen }));
    assert_eq!(Piece::from_symbol('n'), Some(Piece { color: Color::Black, kind: PieceKind::Knight }));
    assert_eq!(Piece::from_symbol('X'), None);
    assert_eq!(Piece::from_symbol('7'), None);
    assert_eq!(Piece { color: Color::White, kind: PieceKind::Bishop }.symbol(), 'B');
    assert_eq!(Piece { color: Color::Black, kind: PieceKind::Rook }.symbol(), 'r');
}

#[test]
fn piece_symbol_round_trip() {
    for c in "pnbrqkPNBRQK".chars() {
        let p = Piece::from_symbol(c).unwrap();
        assert_eq!(p.symbol(), c);
        assert_eq!(Piece::from_symbol(p.symbol()), Some(p));
    }
}

#[test]
fn colors() {
    assert_eq!(Color::White.other(), Color::Black);
    assert_eq!(Color::Black.other(), Color::White);
    assert_eq!(Color::White.label(), "White");
    assert_eq!(Color::Black.label(), "Black");
}
