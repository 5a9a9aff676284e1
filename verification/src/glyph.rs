//! The 5x7 bitmap digits of the watermark.

use vstd::prelude::*;

verus! {

/// Columns of a glyph.
pub const GLYPH_WIDTH: u32 = 5;

/// Rows of a glyph.
pub const GLYPH_HEIGHT: u32 = 7;

/// Cells of a glyph.
pub const GLYPH_SIZE: usize = 35;

/// A digit drawn on a 5x7 matrix, row by row from the top; a cell is
/// foreground when it is not zero.
#[derive(Clone, Copy, Debug, PartialEq, Eq)]
pub struct Glyph {
    pub cells: [u8; GLYPH_SIZE],
}

/// The glyphs of the digits 0 to 9.
pub const DIGITS: [[u8; GLYPH_SIZE]; 10] = [
    [
        0, 1, 1, 1, 0,
        1, 0, 0, 0, 1,
        1, 0, 0, 1, 1,
        1, 0, 1, 0, 1,
        1, 1, 0, 0, 1,
        1, 0, 0, 0, 1,
        0, 1, 1, 1, 0,
    ],
    [
        0, 0, 1, 0, 0,
        0, 1, 1, 0, 0,
        1, 0, 1, 0, 0,
        0, 0, 1, 0, 0,
        0, 0, 1, 0, 0,
        0, 0, 1, 0, 0,
        1, 1, 1, 1, 1,
    ],
    [
        0, 1, 1, 1, 0,
        1, 0, 0, 0, 1,
        0, 0, 0, 0, 1,
        0, 0, 0, 1, 0,
        0, 0, 1, 0, 0,
        0, 1, 0, 0, 0,
        1, 1, 1, 1, 1,
    ],
    [
        0, 1, 1, 1, 0,
        1, 0, 0, 0, 1,
        0, 0, 0, 0, 1,
        0, 0, 1, 1, 0,
        0, 0, 0, 0, 1,
        1, 0, 0, 0, 1,
        0, 1, 1, 1, 0,
    ],
    [
        0, 0, 0, 1, 0,
        0, 0, 1, 1, 0,
        0, 1, 0, 1, 0,
        1, 0, 0, 1, 0,
        1, 1, 1, 1, 1,
        0, 0, 0, 1, 0,
        0, 0, 0, 1, 0,
    ],
    [
        1, 1, 1, 1, 1,
        1, 0, 0, 0, 0,
        1, 1, 1, 1, 0,
        0, 0, 0, 0, 1,
        0, 0, 0, 0, 1,
        1, 0, 0, 0, 1,
        0, 1, 1, 1, 0,
    ],
    [
        0, 1, 1, 1, 0,
        1, 0, 0, 0, 1,
        1, 0, 0, 0, 0,
        1, 1, 1, 1, 0,
        1, 0, 0, 0, 1,
        1, 0, 0, 0, 1,
        0, 1, 1, 1, 0,
    ],
    [
        1, 1, 1, 1, 1,
        0, 0, 0, 0, 1,
        0, 0, 0, 1, 0,
        0, 0, 1, 0, 0,
        0, 1, 0, 0, 0,
        0, 1, 0, 0, 0,
        0, 1, 0, 0, 0,
    ],
    [
        0, 1, 1, 1, 0,
        1, 0, 0, 0, 1,
        1, 0, 0, 0, 1,
        0, 1, 1, 1, 0,
        1, 0, 0, 0, 1,
        1, 0, 0, 0, 1,
        0, 1, 1, 1, 0,
    ],
    [
        0, 1, 1, 1, 0,
        1, 0, 0, 0, 1,
        1, 0, 0, 0, 1,
        0, 1, 1, 1, 1,
        0, 0, 0, 0, 1,
        1, 0, 0, 0, 1,
        0, 1, 1, 1, 0,
    ],
];

/// The digit that a request for `digit` is drawn as: values above 9 are
/// drawn as 9.
pub open spec fn clamp_digit(digit: u8) -> int {
    if digit > 9 {
        9
    } else {
        digit as int
    }
}

/// Whether the cell in column `col` of row `row` is foreground in the glyph
/// of `digit`.
pub open spec fn glyph_cell(digit: u8, col: int, row: int) -> bool {
    &&& 0 <= col < 5
    &&& 0 <= row < 7
    &&& DIGITS@[clamp_digit(digit)]@[row * 5 + col] != 0
}

impl Glyph {
    /// Whether the cell in column `col` of row `row` is foreground.
    pub open spec fn spec_is_set(self, col: int, row: int) -> bool {
        0 <= col < 5 && 0 <= row < 7 && self.cells@[row * 5 + col] != 0
    }

    /// Tests one cell. Cells outside the matrix are background.
    pub fn is_set(&self, col: u32, row: u32) -> (set: bool)
        ensures
            set == self.spec_is_set(col as int, row as int),
    {
        if col >= GLYPH_WIDTH || row >= GLYPH_HEIGHT {
            return false;
        }
        let i: usize = (row * GLYPH_WIDTH + col) as usize;
        self.cells[i] != 0
    }
}

/// Looks up the glyph of a digit. A value above 9 gets the glyph of 9.
pub fn glyph_for(digit: u8) -> (glyph: Glyph)
    ensures
        glyph.cells == DIGITS@[clamp_digit(digit)],
        forall|col: int, row: int| glyph.spec_is_set(col, row) == glyph_cell(digit, col, row),
{
    let idx: usize = if digit > 9 {
        9
    } else {
        digit as usize
    };
    Glyph { cells: DIGITS[idx] }
}

} // verus!
