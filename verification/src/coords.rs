//! Conversion between grid coordinates and file-rank notation.
//!
//! A square is addressed either as a `(column, row)` pair of indices in
//! `[0,7] x [0,7]`, or as a two-character file-rank string: a file letter
//! `A`-`H` followed by a rank digit `1`-`8`.  Column 0 corresponds to rank 8
//! (the top of the board as drawn); row 0 corresponds to file A.  One
//! convention is used symmetrically by both directions, so the two functions
//! are exact inverses on the valid range.

use vstd::prelude::*;

verus! {

/// Errors of the notation parser.
#[derive(Debug, Clone, Copy, PartialEq, Eq, Structural)]
pub enum NotationError {
    /// The string is not a file letter `A`-`H` followed by a rank digit
    /// `1`-`8`.
    InvalidNotation,
}

/// The file letter that names row `row`.
pub open spec fn file_letter(row: int) -> char {
    if row == 0 {
        'A'
    } else if row == 1 {
        'B'
    } else if row == 2 {
        'C'
    } else if row == 3 {
        'D'
    } else if row == 4 {
        'E'
    } else if row == 5 {
        'F'
    } else if row == 6 {
        'G'
    } else {
        'H'
    }
}

/// The rank digit that names column `column` (column 0 is rank 8).
pub open spec fn rank_digit(column: int) -> char {
    if column == 0 {
        '8'
    } else if column == 1 {
        '7'
    } else if column == 2 {
        '6'
    } else if column == 3 {
        '5'
    } else if column == 4 {
        '4'
    } else if column == 5 {
        '3'
    } else if column == 6 {
        '2'
    } else {
        '1'
    }
}

/// The row index named by file letter `c`, if `c` is one of `A`-`H`.
pub open spec fn row_of_file(c: char) -> Option<usize> {
    if c == 'A' {
        Some(0usize)
    } else if c == 'B' {
        Some(1usize)
    } else if c == 'C' {
        Some(2usize)
    } else if c == 'D' {
        Some(3usize)
    } else if c == 'E' {
        Some(4usize)
    } else if c == 'F' {
        Some(5usize)
    } else if c == 'G' {
        Some(6usize)
    } else if c == 'H' {
        Some(7usize)
    } else {
        None
    }
}

/// The column index named by rank digit `c` (digit `d` names column
/// `7 - (d - 1)`), if `c` is one of `1`-`8`.
pub open spec fn column_of_rank(c: char) -> Option<usize> {
    if c == '1' {
        Some(7usize)
    } else if c == '2' {
        Some(6usize)
    } else if c == '3' {
        Some(5usize)
    } else if c == '4' {
        Some(4usize)
    } else if c == '5' {
        Some(3usize)
    } else if c == '6' {
        Some(2usize)
    } else if c == '7' {
        Some(1usize)
    } else if c == '8' {
        Some(0usize)
    } else {
        None
    }
}

/// The file-rank spelling of the square at `(column, row)`.
pub open spec fn spec_square_to_filerank(column: int, row: int) -> Seq<char> {
    seq![file_letter(row), rank_digit(column)]
}

/// The square named by `code`, or the error when `code` is not a
/// two-character file-rank string.
pub open spec fn spec_filerank_to_square(code: Seq<char>) -> Result<(usize, usize), NotationError> {
    if code.len() == 2 && row_of_file(code[0]) is Some && column_of_rank(code[1]) is Some {
        Ok((column_of_rank(code[1]).unwrap(), row_of_file(code[0]).unwrap()))
    } else {
        Err(NotationError::InvalidNotation)
    }
}

/// Spells the square at `(column, row)` in file-rank notation: the file
/// letter at index `row`, then the rank digit `8 - column`.
pub fn square_to_filerank(column: usize, row: usize) -> (s: String)
    requires
        column < 8,
        row < 8,
    ensures
        s@ == spec_square_to_filerank(column as int, row as int),
{
    let file: &str = match row {
        0 => "A",
        1 => "B",
        2 => "C",
        3 => "D",
        4 => "E",
        5 => "F",
        6 => "G",
        _ => "H",
    };
    let rank: &str = match column {
        0 => "8",
        1 => "7",
        2 => "6",
        3 => "5",
        4 => "4",
        5 => "3",
        6 => "2",
        _ => "1",
    };
    proof {
        reveal_strlit("A");
        reveal_strlit("B");
        reveal_strlit("C");
        reveal_strlit("D");
        reveal_strlit("E");
        reveal_strlit("F");
        reveal_strlit("G");
        reveal_strlit("H");
        reveal_strlit("1");
        reveal_strlit("2");
        reveal_strlit("3");
        reveal_strlit("4");
        reveal_strlit("5");
        reveal_strlit("6");
        reveal_strlit("7");
        reveal_strlit("8");
    }
    let s = String::from_str(file).concat(rank);
    proof {
        assert(s@ =~= spec_square_to_filerank(column as int, row as int));
    }
    s
}

/// Parses a file-rank string back to its `(column, row)` pair.  Succeeds
/// exactly on two-character strings made of a file letter `A`-`H` and a rank
/// digit `1`-`8`; anything else is `InvalidNotation`.
pub fn filerank_to_square(code: &str) -> (r: Result<(usize, usize), NotationError>)
    ensures
        r == spec_filerank_to_square(code@),
{
    let n = code.unicode_len();
    if n != 2 {
        return Err(NotationError::InvalidNotation);
    }
    let file = code.get_char(0);
    let rank = code.get_char(1);
    let row: usize = match file {
        'A' => 0,
        'B' => 1,
        'C' => 2,
        'D' => 3,
        'E' => 4,
        'F' => 5,
        'G' => 6,
        'H' => 7,
        _ => {
            return Err(NotationError::InvalidNotation);
        },
    };
    let column: usize = match rank {
        '1' => 7,
        '2' => 6,
        '3' => 5,
        '4' => 4,
        '5' => 3,
        '6' => 2,
        '7' => 1,
        '8' => 0,
        _ => {
            return Err(NotationError::InvalidNotation);
        },
    };
    Ok((column, row))
}

/// Round trip: parsing the spelling of any valid square gives back exactly
/// that square.
pub proof fn lemma_filerank_round_trip(column: int, row: int)
    requires
        0 <= column < 8,
        0 <= row < 8,
    ensures
        spec_filerank_to_square(spec_square_to_filerank(column, row)) == Ok::<(usize, usize),
            NotationError>((column as usize, row as usize)),
{
}

} // verus!
