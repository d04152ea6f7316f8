//! Mapping between pixel positions, linear square indices and algebraic
//! square names such as `e4`.
use vstd::prelude::*;
use vstd::string::*;
use crate::piece::char_from_code;

verus! {

/// Tiles per side of the board.
pub const BOARD_TILES: u8 = 8;

/// Width and height of one tile, in pixels.
pub const TILE_PIXELS: i64 = 90;

/// Width and height of the whole board, in pixels.
pub const BOARD_PIXELS: i64 = 720;

/// The square index that means "no square".
pub const NO_SQUARE: u8 = 64;

/// The file (column, `a` to `h`) of a square index.
pub open spec fn file_of(sq: int) -> int {
    sq % 8
}

/// The rank (row, `1` to `8`) of a square index, counted from zero.
pub open spec fn rank_of(sq: int) -> int {
    sq / 8
}

/// The tile that a pixel coordinate along one axis falls in. Tile `t` covers
/// the coordinates above `t * 90` up to and including `t * 90 + 90`.
pub open spec fn tile_at(v: int) -> int {
    (v - 1) / (TILE_PIXELS as int)
}

/// The square under a pixel, or `NO_SQUARE` when the pixel is off the board.
pub open spec fn square_at_pixel(x: int, y: int) -> int {
    if 0 < x <= BOARD_PIXELS && 0 < y <= BOARD_PIXELS {
        tile_at(y) * 8 + tile_at(x)
    } else {
        NO_SQUARE as int
    }
}

/// The letter of a file.
pub open spec fn file_letter(f: int) -> char {
    ('a' as int + f) as char
}

/// The digit of a rank counted from zero.
pub open spec fn rank_digit(r: int) -> char {
    ('1' as int + r) as char
}

/// The algebraic name of a square: its file letter, then its rank digit;
/// empty for an index off the board.
pub open spec fn algebraic_of(sq: int) -> Seq<char> {
    if 0 <= sq < 64 {
        seq![file_letter(file_of(sq)), rank_digit(rank_of(sq))]
    } else {
        Seq::empty()
    }
}

/// The file of a file letter; zero for any other character.
pub open spec fn file_of_letter(c: char) -> u8 {
    if 'a' <= c && c <= 'h' {
        (c as u32 - 'a' as u32) as u8
    } else {
        0
    }
}

/// The rank of a rank digit, counted from zero; zero for any other character.
pub open spec fn rank_of_digit(c: char) -> u8 {
    if '1' <= c && c <= '8' {
        (c as u32 - '1' as u32) as u8
    } else {
        0
    }
}

/// The (file, rank) pair named by an algebraic square name. A missing or
/// unrecognized character counts as zero.
pub open spec fn parse_square(s: Seq<char>) -> (u8, u8) {
    (
        if s.len() > 0 { file_of_letter(s[0]) } else { 0 },
        if s.len() > 1 { rank_of_digit(s[1]) } else { 0 },
    )
}

/// Relies on String::push: the character is appended at the end.
pub assume_specification[ String::push ](s: &mut String, ch: char)
    ensures
        final(s)@ == old(s)@.push(ch),
;

/// The square under the pixel `(x, y)`: the tile column comes from `x`, the
/// tile row from `y`, and the index is `row * 8 + column`. Pixels off the
/// board give `NO_SQUARE`.
pub fn pixel_to_square(x: i64, y: i64) -> (r: u8)
    ensures
        r as int == square_at_pixel(x as int, y as int),
        r <= NO_SQUARE,
{
    if x <= 0 || x > BOARD_PIXELS || y <= 0 || y > BOARD_PIXELS {
        return NO_SQUARE;
    }
    let col: i64 = (x - 1) / TILE_PIXELS;
    let row: i64 = (y - 1) / TILE_PIXELS;
    assert(0 <= col < 8 && 0 <= row < 8);
    (row as u8) * BOARD_TILES + (col as u8)
}

/// The algebraic name of a square, such as `e4` for index 28; empty for an
/// index off the board.
pub fn square_to_algebraic(sq: u8) -> (r: String)
    ensures
        r@ == algebraic_of(sq as int),
{
    let mut name = String::new();
    if sq < 64 {
        let file = char_from_code('a' as u32 + (sq % 8) as u32);
        let rank = char_from_code('1' as u32 + (sq / 8) as u32);
        name.push(file);
        name.push(rank);
        assert(name@ =~= algebraic_of(sq as int));
    }
    name
}

/// The (file, rank) pair of an algebraic square name. Characters that are
/// not a file letter or a rank digit, and missing ones, count as zero.
pub fn algebraic_to_square(s: &str) -> (r: (u8, u8))
    ensures
        r == parse_square(s@),
{
    let n = s.unicode_len();
    let file = if n > 0 {
        let c = s.get_char(0);
        if 'a' <= c && c <= 'h' {
            (c as u32 - 'a' as u32) as u8
        } else {
            0
        }
    } else {
        0
    };
    let rank = if n > 1 {
        let c = s.get_char(1);
        if '1' <= c && c <= '8' {
            (c as u32 - '1' as u32) as u8
        } else {
            0
        }
    } else {
        0
    };
    (file, rank)
}

/// The (file, rank) pairs of a list of algebraic square names, in order.
pub fn squares_from_algebraic(names: &Vec<String>) -> (r: Vec<(u8, u8)>)
    ensures
        r@.len() == names@.len(),
        forall|i: int| 0 <= i < names@.len() ==> #[trigger] r@[i] == parse_square(names@[i]@),
{
    let mut out: Vec<(u8, u8)> = Vec::new();
    let mut i: usize = 0;
    while i < names.len()
        invariant
            i <= names@.len(),
            out@.len() == i,
            forall|j: int| 0 <= j < i ==> #[trigger] out@[j] == parse_square(names@[j]@),
        decreases names@.len() - i,
    {
        out.push(algebraic_to_square(names[i].as_str()));
        i = i + 1;
    }
    out
}

/// Naming a square and reading the name back gives the square's file and rank.
pub proof fn lemma_algebraic_round_trip(sq: int)
    requires
        0 <= sq < 64,
    ensures
        parse_square(algebraic_of(sq)) == (file_of(sq) as u8, rank_of(sq) as u8),
{
}

/// A pixel strictly inside the tile in row `r` and column `c` lies on square
/// `r * 8 + c`.
pub proof fn lemma_pixel_inside_tile(x: int, y: int, r: int, c: int)
    requires
        0 <= r < 8,
        0 <= c < 8,
        c * TILE_PIXELS < x < c * TILE_PIXELS + TILE_PIXELS,
        r * TILE_PIXELS < y < r * TILE_PIXELS + TILE_PIXELS,
    ensures
        square_at_pixel(x, y) == r * 8 + c,
{
    assert(tile_at(x) == c) by (nonlinear_arith)
        requires
            c * 90 < x < c * 90 + 90,
            tile_at(x) == (x - 1) / 90,
    ;
    assert(tile_at(y) == r) by (nonlinear_arith)
        requires
            r * 90 < y < r * 90 + 90,
            tile_at(y) == (y - 1) / 90,
    ;
}

/// A pixel outside the board's extent lies on no square.
pub proof fn lemma_pixel_off_board(x: int, y: int)
    requires
        x < 0 || x > BOARD_PIXELS || y < 0 || y > BOARD_PIXELS,
    ensures
        square_at_pixel(x, y) == NO_SQUARE as int,
{
}

} // verus!
