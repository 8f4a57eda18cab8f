//! The 64 by 32 display and the XOR composition of sprites onto it.

use vstd::prelude::*;

verus! {

/// Cells in a row of the display.
pub const SCREEN_WIDTH: usize = 64;

/// Rows of the display.
pub const SCREEN_HEIGHT: usize = 32;

/// Cells of the display, row after row.
pub const SCREEN_CELLS: usize = 2048;

/// Whether a sprite row has its pixel `j` lit, counted from the left
/// (the most significant bit is pixel 0).
pub open spec fn row_bit(row: u8, j: int) -> bool {
    (row >> ((7 - j) as u8)) & 1u8 == 1u8
}

/// Whether the sprite of `n` rows stored at `index`, drawn with its top left
/// corner at column `bx` and row `by`, lights the cell at row `r` and column
/// `c`. Rows stored past the end of memory light nothing.
pub open spec fn sprite_lights(
    memory: Seq<u8>,
    index: int,
    bx: int,
    by: int,
    n: int,
    r: int,
    c: int,
) -> bool {
    &&& by <= r < by + n
    &&& bx <= c < bx + 8
    &&& index + (r - by) < memory.len()
    &&& row_bit(memory[index + (r - by)], c - bx)
}

/// The display after the sprite was composed onto `screen` by XOR. Cells of
/// the sprite that fall outside the display are dropped.
pub open spec fn blit(
    screen: Seq<bool>,
    memory: Seq<u8>,
    index: int,
    bx: int,
    by: int,
    n: int,
) -> Seq<bool> {
    Seq::new(
        2048,
        |p: int| screen[p] != sprite_lights(memory, index, bx, by, n, p / 64, p % 64),
    )
}

/// As `sprite_lights`, for the part of the sprite that is composed first:
/// its first `rows` rows and the first `cols` cells of the row after them.
pub open spec fn sprite_lights_upto(
    memory: Seq<u8>,
    index: int,
    bx: int,
    by: int,
    rows: int,
    cols: int,
    r: int,
    c: int,
) -> bool {
    sprite_lights(memory, index, bx, by, rows + 1, r, c) && (r - by < rows || c - bx < cols)
}

/// As `collides`, for that part of the sprite.
pub open spec fn collides_upto(
    screen: Seq<bool>,
    memory: Seq<u8>,
    index: int,
    bx: int,
    by: int,
    rows: int,
    cols: int,
) -> bool {
    exists|p: int|
        0 <= p < 2048 && #[trigger] screen[p] && sprite_lights_upto(
            memory,
            index,
            bx,
            by,
            rows,
            cols,
            p / 64,
            p % 64,
        )
}

/// Whether the sprite lights a cell that is already lit on `screen`.
pub open spec fn collides(
    screen: Seq<bool>,
    memory: Seq<u8>,
    index: int,
    bx: int,
    by: int,
    n: int,
) -> bool {
    exists|p: int|
        0 <= p < 2048 && #[trigger] screen[p] && sprite_lights(
            memory,
            index,
            bx,
            by,
            n,
            p / 64,
            p % 64,
        )
}

} // verus!
