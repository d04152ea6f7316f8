use schack::board::Board;
use schack::codec::{decode_placement, decode_position};
use schack::piece::{Color, Piece, PieceKind};

const START: &str = "rnbqkbnr/pppppppp/8/8/8/8/PPPPPPPP/RNBQKBNR w KQkq - 0 1";

fn same_cells(a: &Board, b: &Board) -> bool {
    (0..64u8).all(|sq| a.get(sq) == b.get(sq))
}

#[test]
fn decode_initial_position() {
    let decoded = decode_position(START);
    assert!(same_cells(&decoded, &Board::initial()));
}

#[test]
fn decode_placement_field_alone() {
    let decoded = decode_placement("rnbqkbnr/pppppppp/8/8/8/8/PPPPPPPP/RNBQKBNR");
    assert!(same_cells(&decoded, &Board::initial()));
}

#[test]
fn decode_twice_gives_same_board() {
    let fen = "4k3/8/2n5/8/2B5/8/8/4K3 w - - 0 1";
    let a = decode_position(fen);
    let b = decode_position(fen);
    assert!(same_cells(&a, &b));
    assert_eq!(a.get(42), Some(Piece { color: Color::Black, kind: PieceKind::Knight }));
    assert_eq!(a.get(26), Some(Piece { color: Color::White, kind: PieceKind::Bishop }));
    assert_eq!(a.get(5), None);
}

#[test]
fn decode_after_first_move() {
    let b = decode_position("rnbqkbnr/pppppppp/8/8/8/5N2/PPPPPPPP/RNBQKB1R b KQkq - 1 1");
    assert_eq!(b.get(21), Some(Piece { color: Color::White, kind: PieceKind::Knight }));
    assert_eq!(b.get(6), None);
    assert_eq!(b.get(7), Some(Piece { color: Color::White, kind: PieceKind::Rook }));
}

#[test]
fn decode_empty_string() {
    let b = decode_position("");
    for sq in 0..64u8 {
        assert_eq!(b.get(sq), None);
    }
}

#[test]
fn decode_stops_at_whitespace() {
    let b = decode_position("p kq");
    assert_eq!(b.get(56), Some(Piece { color: Color::Black, kind: PieceKind::Pawn }));
    assert_eq!(b.get(57), None);
    assert_eq!(b.get(58), None);
    assert_eq!(b.get(59), None);
    let t = decode_position("k\tQ");
    assert_eq!(t.get(56), Some(Piece { color: Color::Black, kind: PieceKind::King }));
    assert_eq!(t.get(57), None);
}

#[test]
fn decode_unknown_letter_is_empty() {
    let b = decode_position("kxq");
    assert_eq!(b.get(56), Some(Piece { color: Color::Black, kind: PieceKind::King }));
    assert_eq!(b.get(57), None);
    assert_eq!(b.get(58), Some(Piece { color: Color::Black, kind: PieceKind::Queen }));
}

#[test]
fn decode_ignores_squares_off_the_board() {
    let b = decode_position("8k/8/8/8/8/8/8/8/8/K");
    for sq in 0..64u8 {
        assert_eq!(b.get(sq), None);
    }
    let c = decode_position("99Q/7K");
    assert_eq!(c.get(55), Some(Piece { color: Color::White, kind: PieceKind::King }));
    assert_eq!(c.get(56), None);
}

#[test]
fn resync_replaces_cache() {
    let mut b = Board::initial();
    b.resync("4k3/8/8/8/8/8/8/4K3 w - - 0 1");
    assert_eq!(b.get(4), Some(Piece { color: Color::White, kind: PieceKind::King }));
    assert_eq!(b.get(60), Some(Piece { color: Color::Black, kind: PieceKind::King }));
    assert_eq!(b.get(0), None);
    assert_eq!(b.get(12), None);
    b.resync(START);
    assert!(same_cells(&b, &Board::initial()));
}
