//! Decoding of the piece-placement field of a position string, such as
//! `rnbqkbnr/pppppppp/8/8/8/8/PPPPPPPP/RNBQKBNR w KQkq - 0 1`.
use vstd::prelude::*;
use vstd::string::*;
use crate::board::{empty_cells, Board};
use crate::piece::{piece_of_symbol, Piece};

verus! {

/// Whether a character has the Unicode `White_Space` property.
pub uninterp spec fn unicode_whitespace(c: char) -> bool;

/// Relies on char::is_whitespace: true exactly for the characters with the
/// Unicode `White_Space` property.
#[verifier::external_body]
fn is_whitespace(c: char) -> (r: bool)
    ensures
        r == unicode_whitespace(c),
{
    c.is_whitespace()
}

/// Where decoding stands: the cells so far, the current rank (7 at the top
/// of the board, -1 once the ranks have run out) and the current file (8
/// once the rank is full).
pub struct Cursor {
    pub cells: Seq<Option<Piece>>,
    pub rank: int,
    pub file: int,
}

/// The value of an ASCII digit.
pub open spec fn digit_value(c: char) -> int {
    c as int - '0' as int
}

/// The effect of one character of the placement field: `/` moves to the
/// start of the next rank down; a digit skips that many files; any other
/// character fills the current square with the piece it stands for (or
/// empties it, when it stands for none) and moves one file on. Squares off
/// the board are never written.
pub open spec fn decode_step(cur: Cursor, c: char) -> Cursor {
    if c == '/' {
        Cursor { cells: cur.cells, rank: if cur.rank >= 0 { cur.rank - 1 } else { -1 }, file: 0 }
    } else if '0' <= c && c <= '9' {
        Cursor {
            cells: cur.cells,
            rank: cur.rank,
            file: if cur.file + digit_value(c) < 8 { cur.file + digit_value(c) } else { 8 },
        }
    } else {
        Cursor {
            cells: if 0 <= cur.rank && cur.file < 8 {
                cur.cells.update(cur.rank * 8 + cur.file, piece_of_symbol(c))
            } else {
                cur.cells
            },
            rank: cur.rank,
            file: if cur.file < 8 { cur.file + 1 } else { 8 },
        }
    }
}

/// Where decoding stands after the characters of `s`, starting at the top
/// left square of an empty board.
pub open spec fn decode_chars(s: Seq<char>) -> Cursor
    decreases s.len(),
{
    if s.len() == 0 {
        Cursor { cells: empty_cells(), rank: 7, file: 0 }
    } else {
        decode_step(decode_chars(s.drop_last()), s.last())
    }
}

/// The board that a placement field describes.
pub open spec fn placement_cells(s: Seq<char>) -> Seq<Option<Piece>> {
    decode_chars(s).cells
}

/// The index of the first whitespace character of `s` at or after `i`, or
/// the length of `s` when there is none.
pub open spec fn field_end(s: Seq<char>, i: int) -> int
    decreases s.len() - i,
{
    if i >= s.len() {
        s.len() as int
    } else if unicode_whitespace(s[i]) {
        i
    } else {
        field_end(s, i + 1)
    }
}

/// The placement field of a position string: everything before the first
/// whitespace character.
pub open spec fn placement_field(s: Seq<char>) -> Seq<char> {
    s.take(field_end(s, 0))
}

proof fn lemma_decode_cursor_bounds(s: Seq<char>)
    ensures
        decode_chars(s).cells.len() == 64,
        -1 <= decode_chars(s).rank <= 7,
        0 <= decode_chars(s).file <= 8,
    decreases s.len(),
{
    if s.len() > 0 {
        lemma_decode_cursor_bounds(s.drop_last());
    }
}

/// The board described by the first `end` characters of `s`.
fn decode_prefix(s: &str, end: usize) -> (r: Board)
    requires
        end <= s@.len(),
    ensures
        r@ == placement_cells(s@.take(end as int)),
        r.wf(),
{
    let mut board = Board::empty();
    let mut rank: i64 = 7;
    let mut file: i64 = 0;
    let mut i: usize = 0;
    proof {
        assert(s@.take(0) =~= Seq::<char>::empty());
    }
    while i < end
        invariant
            end <= s@.len(),
            i <= end,
            board.wf(),
            board@ == decode_chars(s@.take(i as int)).cells,
            rank == decode_chars(s@.take(i as int)).rank,
            file == decode_chars(s@.take(i as int)).file,
        decreases end - i,
    {
        proof {
            lemma_decode_cursor_bounds(s@.take(i as int));
            assert(s@.take(i + 1).drop_last() =~= s@.take(i as int));
        }
        let c = s.get_char(i);
        if c == '/' {
            if rank >= 0 {
                rank = rank - 1;
            }
            file = 0;
        } else if '0' <= c && c <= '9' {
            let skip = (c as u32 - '0' as u32) as i64;
            file = if file + skip < 8 { file + skip } else { 8 };
        } else {
            if rank >= 0 && file < 8 {
                board.set((rank * 8 + file) as u8, Piece::from_symbol(c));
            }
            if file < 8 {
                file = file + 1;
            }
        }
        i = i + 1;
    }
    board
}

/// Decodes a placement field on its own: every character is read.
pub fn decode_placement(field: &str) -> (r: Board)
    ensures
        r@ == placement_cells(field@),
        r.wf(),
{
    let n = field.unicode_len();
    proof {
        assert(field@.take(n as int) =~= field@);
    }
    decode_prefix(field, n)
}

/// Decodes the placement field of a full position string, ignoring what
/// follows the first whitespace character (side to move, castling rights
/// and the like).
pub fn decode_position(fen: &str) -> (r: Board)
    ensures
        r@ == placement_cells(placement_field(fen@)),
        r.wf(),
{
    let n = fen.unicode_len();
    let mut i: usize = 0;
    while i < n && !is_whitespace(fen.get_char(i))
        invariant
            n == fen@.len(),
            i <= n,
            field_end(fen@, i as int) == field_end(fen@, 0),
        decreases n - i,
    {
        i = i + 1;
    }
    decode_prefix(fen, i)
}

impl Board {
    /// Replaces every cell with the decoding of the rules engine's position
    /// string.
    pub fn resync(&mut self, fen: &str)
        ensures
            final(self)@ == placement_cells(placement_field(fen@)),
            final(self).wf(),
    {
        *self = decode_position(fen);
    }
}

/// Decoding is idempotent: decoding one position string a second time gives
/// the same board as the first time, whatever the cache held in between.
pub proof fn lemma_decode_idempotent(s: Seq<char>, t: Seq<char>)
    requires
        s == t,
    ensures
        placement_cells(placement_field(s)) == placement_cells(placement_field(t)),
{
}

} // verus!
