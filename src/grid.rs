use vstd::prelude::*;

verus! {

/// Width of one character cell, in pixels.
pub const CELL_WIDTH: u32 = 13;

/// Height of one character cell, in pixels.
pub const CELL_HEIGHT: u32 = 20;

/// Largest row or column count a session accepts.
pub const MAX_DIMENSION: u16 = 65535;

pub open spec fn clamp_dimension(n: int) -> int {
    if n < 0 {
        0
    } else if n > MAX_DIMENSION {
        MAX_DIMENSION as int
    } else {
        n
    }
}

/// Rows that fit in `height` pixels: one fewer than the whole cells, never below zero.
pub open spec fn row_count(height: nat) -> int {
    clamp_dimension(height as int / CELL_HEIGHT as int - 1)
}

/// Columns that fit in `width` pixels: the whole cells.
pub open spec fn col_count(width: nat) -> int {
    clamp_dimension(width as int / CELL_WIDTH as int)
}

/// The (rows, columns) a session gets for a drawing area of `width` by `height` pixels.
pub fn grid_dimensions(width: u32, height: u32) -> (r: (u16, u16))
    ensures
        r.0 == row_count(height as nat),
        r.1 == col_count(width as nat),
{
    let whole_rows: u32 = height / CELL_HEIGHT;
    let rows: u32 = if whole_rows == 0 { 0 } else { whole_rows - 1 };
    let cols: u32 = width / CELL_WIDTH;
    let rows16: u16 = if rows > MAX_DIMENSION as u32 { MAX_DIMENSION } else { rows as u16 };
    let cols16: u16 = if cols > MAX_DIMENSION as u32 { MAX_DIMENSION } else { cols as u16 };
    (rows16, cols16)
}

/// Where one cell is painted, in pixels.
pub struct CellRect {
    pub x: i64,
    pub y: i64,
    pub width: i64,
    pub height: i64,
}

/// Left edge of the cell in `column`; column zero sits one cell in from the border.
pub open spec fn cell_x(column: int) -> int {
    (column + 1) * CELL_WIDTH as int
}

/// Top edge of the cell on `line`, shifted by the scroll offset; line zero sits one
/// cell down from the border.
pub open spec fn cell_y(line: int, display_offset: int) -> int {
    (line + display_offset + 1) * CELL_HEIGHT as int
}

/// The rectangle painted for the cell at (`column`, `line`) under `display_offset`.
pub fn cell_rect(column: u16, line: i32, display_offset: u32) -> (r: CellRect)
    ensures
        r.x == cell_x(column as int),
        r.y == cell_y(line as int, display_offset as int),
        r.width == CELL_WIDTH,
        r.height == CELL_HEIGHT,
{
    let cx: i64 = column as i64 + 1;
    let cy: i64 = line as i64 + display_offset as i64 + 1;
    let w: i64 = CELL_WIDTH as i64;
    let h: i64 = CELL_HEIGHT as i64;
    assert(w == 13 && h == 20);
    let x: i64 = cx * w;
    let y: i64 = cy * h;
    CellRect { x, y, width: CELL_WIDTH as i64, height: CELL_HEIGHT as i64 }
}

} // verus!
