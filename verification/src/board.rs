//! The board snapshot: an 8x8 grid of optional pieces, rebuilt each frame
//! from the rules engine's serialized board.
//!
//! The serialization carries one character per square in row-major order,
//! with one line-separator character appended per row, so the character for
//! the square at `(column, row)` sits at index `9 * column + row`.  A letter
//! (case-insensitive `k`, `q`, `b`, `n`, `r`, `p`) names a role, uppercase
//! meaning white; every other character — the `*` empty marker, the skipped
//! separator, or anything unrecognized — yields an empty square, so a
//! malformed serialization can never make the parser fail.

use vstd::prelude::*;

verus! {

pub const NONE: u8 = 0;

pub const KING: u8 = 1;

pub const QUEEN: u8 = 2;

pub const BISHOP: u8 = 3;

pub const KNIGHT: u8 = 4;

pub const ROOK: u8 = 5;

pub const PAWN: u8 = 6;

/// A piece on the board: its role, its `(column, row)` square, and its side.
#[derive(Debug, Copy, Clone)]
pub struct Piece {
    pub role: u8,
    pub position: (i16, i16),
    pub is_white: bool,
}

impl Piece {
    pub fn new(role: u8, position: (i16, i16), is_white: bool) -> (p: Self)
        ensures
            p.role == role,
            p.position == position,
            p.is_white == is_white,
    {
        Piece { role, position, is_white }
    }
}

/// The role named by a board character, `NONE` when the character names no
/// piece.
pub open spec fn spec_role_of(ch: char) -> u8 {
    if ch == 'k' || ch == 'K' {
        KING
    } else if ch == 'q' || ch == 'Q' {
        QUEEN
    } else if ch == 'b' || ch == 'B' {
        BISHOP
    } else if ch == 'n' || ch == 'N' {
        KNIGHT
    } else if ch == 'r' || ch == 'R' {
        ROOK
    } else if ch == 'p' || ch == 'P' {
        PAWN
    } else {
        NONE
    }
}

/// Whether a board character names a white piece (an uppercase role letter).
pub open spec fn spec_is_white_char(ch: char) -> bool {
    ch == 'K' || ch == 'Q' || ch == 'B' || ch == 'N' || ch == 'R' || ch == 'P'
}

/// The contents of the square at `(column, row)` given its board character:
/// a piece for a role letter, an empty square for anything else.
pub open spec fn spec_cell_of_char(ch: char, column: int, row: int) -> Option<Piece> {
    if spec_role_of(ch) != NONE {
        Some(
            Piece {
                role: spec_role_of(ch),
                position: (column as i16, row as i16),
                is_white: spec_is_white_char(ch),
            },
        )
    } else {
        None
    }
}

/// The contents of the square at `(column, row)` of a serialized board: the
/// cell named by the character at index `9 * column + row`, or an empty
/// square when the text is too short to hold one.
pub open spec fn spec_cell_of_text(t: Seq<char>, column: int, row: int) -> Option<Piece> {
    if 9 * column + row < t.len() {
        spec_cell_of_char(t[9 * column + row], column, row)
    } else {
        None
    }
}

/// The 8x8 grid of optional pieces, stored row-major: the square at
/// `(column, row)` is `squares[8 * column + row]`.
pub struct Board {
    pub squares: Vec<Option<Piece>>,
}

impl Board {
    /// The contents of the square at `(column, row)`.
    pub open spec fn at(self, column: int, row: int) -> Option<Piece> {
        self.squares@[8 * column + row]
    }

    /// The grid holds all 64 squares and every piece records the square it
    /// stands on.
    pub open spec fn wf(self) -> bool {
        &&& self.squares@.len() == 64
        &&& forall|c: int, r: int|
            0 <= c < 8 && 0 <= r < 8 ==> ((#[trigger] self.at(c, r)) matches Some(p) ==> p.position
                == (c as i16, r as i16))
    }

    /// An empty board: all 64 squares vacant.
    pub fn empty() -> (b: Board)
        ensures
            b.wf(),
            forall|c: int, r: int| 0 <= c < 8 && 0 <= r < 8 ==> #[trigger] b.at(c, r) is None,
    {
        let mut squares: Vec<Option<Piece>> = Vec::new();
        let mut i: usize = 0;
        while i < 64
            invariant
                i <= 64,
                squares@.len() == i,
                forall|k: int| 0 <= k < i ==> #[trigger] squares@[k] is None,
            decreases 64 - i,
        {
            squares.push(None);
            i += 1;
        }
        Board { squares }
    }

    /// Reads the square at `(column, row)`.
    pub fn piece_at(&self, column: usize, row: usize) -> (p: Option<Piece>)
        requires
            self.wf(),
            column < 8,
            row < 8,
        ensures
            p == self.at(column as int, row as int),
    {
        self.squares[8 * column + row]
    }
}

/// The cell named by one board character, as an executable function.
fn parse_cell(ch: char, column: usize, row: usize) -> (p: Option<Piece>)
    requires
        column < 8,
        row < 8,
    ensures
        p == spec_cell_of_char(ch, column as int, row as int),
{
    let role: u8 = match ch {
        'k' | 'K' => KING,
        'q' | 'Q' => QUEEN,
        'b' | 'B' => BISHOP,
        'n' | 'N' => KNIGHT,
        'r' | 'R' => ROOK,
        'p' | 'P' => PAWN,
        _ => NONE,
    };
    if role != NONE {
        let is_white = matches!(ch, 'K' | 'Q' | 'B' | 'N' | 'R' | 'P');
        Some(Piece::new(role, (column as i16, row as i16), is_white))
    } else {
        None
    }
}

/// Rebuilds the board snapshot from the engine's serialized board.  Every
/// square holds exactly the cell its character names; squares the text is too
/// short to cover are empty, so no input can make this fail.
pub fn parse_board(text: &str) -> (b: Board)
    ensures
        b.wf(),
        forall|c: int, r: int|
            0 <= c < 8 && 0 <= r < 8 ==> #[trigger] b.at(c, r) == spec_cell_of_text(text@, c, r),
{
    let n = text.unicode_len();
    let mut squares: Vec<Option<Piece>> = Vec::new();
    let mut c: usize = 0;
    while c < 8
        invariant
            c <= 8,
            squares@.len() == 8 * c,
            n == text@.len(),
            forall|i: int, j: int|
                0 <= i < c && 0 <= j < 8 ==> #[trigger] squares@[8 * i + j] == spec_cell_of_text(
                    text@,
                    i,
                    j,
                ),
        decreases 8 - c,
    {
        let mut r: usize = 0;
        while r < 8
            invariant
                c < 8,
                r <= 8,
                squares@.len() == 8 * c + r,
                n == text@.len(),
                forall|i: int, j: int|
                    0 <= i < c && 0 <= j < 8 ==> #[trigger] squares@[8 * i + j]
                        == spec_cell_of_text(text@, i, j),
                forall|j: int|
                    0 <= j < r ==> #[trigger] squares@[8 * c + j] == spec_cell_of_text(
                        text@,
                        c as int,
                        j,
                    ),
            decreases 8 - r,
        {
            let idx = 9 * c + r;
            let cell: Option<Piece> = if idx < n {
                let ch = text.get_char(idx);
                parse_cell(ch, c, r)
            } else {
                None
            };
            squares.push(cell);
            r += 1;
        }
        c += 1;
    }
    let b = Board { squares };
    proof {
        assert forall|cc: int, rr: int| 0 <= cc < 8 && 0 <= rr < 8 implies #[trigger] b.at(cc, rr)
            == spec_cell_of_text(text@, cc, rr) by {
            assert(b.squares@[8 * cc + rr] == spec_cell_of_text(text@, cc, rr));
        }
    }
    b
}

} // verus!
