//! Geometry: the conversion from window pixel sizes to terminal grid
//! dimensions, and the pixel layout of a cell on the rendering surface.
//!
//! Two conventions of the rendering layer are kept as explicit constants
//! rather than re-derived: the column count is doubled because column
//! positions are measured in half-cell units, and cells are laid out at
//! twice the font's natural line height.  Layout positions are computed in
//! tenths of a pixel so the baseline offset of 0.7 cell heights stays
//! exact integer arithmetic.

use vstd::prelude::*;

verus! {

/// Factor undoing the rendering surface's oversampling; surface pixel
/// sizes are divided by it before they reach this module.
pub const DPI_SCALE_FACTOR: u32 = 2;

/// Columns per cell width: column positions are measured in half-cell
/// units, so a window holds twice as many columns as whole cell widths.
pub const COLUMNS_PER_CELL_WIDTH: u32 = 2;

/// Vertical stretch: cell rows are laid out at twice the font's natural
/// line height.
pub const LINE_HEIGHT_FACTOR: u32 = 2;

/// Baseline offset below a cell's top edge, in tenths of the stretched
/// cell height: seven tenths of one stretched cell.
pub const BASELINE_TENTHS_PER_CELL: u32 = 7;

/// Division rounded to the nearest integer, halves rounding up.
pub open spec fn round_div_spec(a: nat, b: nat) -> nat
    recommends
        b > 0,
{
    (2 * a + b) / (2 * b)
}

/// Grid dimensions are clamped into the range a terminal can hold: at
/// least one row and one column, at most what fits in sixteen bits.
pub open spec fn clamp_dim_spec(n: nat) -> nat {
    if n < 1 {
        1
    } else if n > 65535 {
        65535
    } else {
        n
    }
}

/// The row count a window height yields: the height divided by the cell
/// height, rounded to the nearest whole row.
pub open spec fn rows_spec(height_px: nat, cell_height_px: nat) -> nat
    recommends
        cell_height_px > 0,
{
    clamp_dim_spec(round_div_spec(height_px, cell_height_px))
}

/// The column count a window width yields: twice the width divided by the
/// cell width rounded to the nearest whole cell, columns being half-cell
/// units.
pub open spec fn cols_spec(width_px: nat, cell_width_px: nat) -> nat
    recommends
        cell_width_px > 0,
{
    clamp_dim_spec(2 * round_div_spec(width_px, cell_width_px))
}

/// Converts a window pixel size and the font's cell metrics to terminal
/// grid dimensions, as (rows, columns).
pub fn grid_dims(width_px: u32, height_px: u32, cell_width_px: u32, cell_height_px: u32) -> (r: (
    u16,
    u16,
))
    requires
        cell_width_px > 0,
        cell_height_px > 0,
    ensures
        r.0 as nat == rows_spec(height_px as nat, cell_height_px as nat),
        r.1 as nat == cols_spec(width_px as nat, cell_width_px as nat),
{
    let rows64: u64 = (2 * (height_px as u64) + (cell_height_px as u64)) / (2 * (cell_height_px
        as u64));
    let cols64: u64 = 2 * ((2 * (width_px as u64) + (cell_width_px as u64)) / (2 * (cell_width_px
        as u64)));
    let rows: u16 = if rows64 < 1 {
        1
    } else if rows64 > 65535 {
        65535
    } else {
        rows64 as u16
    };
    let cols: u16 = if cols64 < 1 {
        1
    } else if cols64 > 65535 {
        65535
    } else {
        cols64 as u16
    };
    (rows, cols)
}

/// The on-screen layout of one cell, in tenths of a pixel.
#[derive(Clone, Copy, PartialEq, Eq, Structural, Debug)]
pub struct CellLayout {
    /// Left edge of the cell.
    pub x_tenths: i64,
    /// Top edge of the cell's background rectangle.
    pub top_tenths: i64,
    /// Vertical position of the glyph baseline.
    pub baseline_tenths: i64,
}

/// The line a cell is drawn on: its engine line shifted by the snapshot's
/// scroll offset.
pub open spec fn view_line_spec(line: int, display_offset: int) -> int {
    line + display_offset
}

/// Horizontal position: the column times the cell width.
pub open spec fn x_tenths_spec(column: int, cell_width_px: int) -> int {
    10 * column * cell_width_px
}

/// Vertical position of the cell's top edge: the view line times the
/// stretched cell height.
pub open spec fn top_tenths_spec(view_line: int, cell_height_px: int) -> int {
    20 * view_line * cell_height_px
}

/// The glyph baseline sits seven tenths of a stretched cell height below
/// the cell's top edge.
pub open spec fn baseline_tenths_spec(view_line: int, cell_height_px: int) -> int {
    top_tenths_spec(view_line, cell_height_px) + 14 * cell_height_px
}

/// Computes where one cell is painted: its left edge, the top of its
/// background rectangle, and its glyph baseline, in tenths of a pixel.
pub fn cell_layout(
    column: usize,
    line: i32,
    display_offset: usize,
    cell_width_px: u32,
    cell_height_px: u32,
) -> (r: CellLayout)
    requires
        column <= 65535,
        display_offset <= 0xFFFF_FFFF,
        cell_width_px <= 16384,
        cell_height_px <= 16384,
    ensures
        r.x_tenths == x_tenths_spec(column as int, cell_width_px as int),
        r.top_tenths == top_tenths_spec(
            view_line_spec(line as int, display_offset as int),
            cell_height_px as int,
        ),
        r.baseline_tenths == baseline_tenths_spec(
            view_line_spec(line as int, display_offset as int),
            cell_height_px as int,
        ),
{
    let col64: i64 = column as i64;
    let cw64: i64 = cell_width_px as i64;
    let ch64: i64 = cell_height_px as i64;
    let vline: i64 = (line as i64) + (display_offset as i64);
    assert(10 * col64 * cw64 <= 10 * 65535 * 16384 && 10 * col64 * cw64 >= 0)
        by (nonlinear_arith)
        requires
            0 <= col64 <= 65535,
            0 <= cw64 <= 16384,
    ;
    let x: i64 = 10 * col64 * cw64;
    assert(20 * vline * ch64 <= 20 * 0x1_8000_0000i64 * 16384 && 20 * vline * ch64 >= 20 * (
    -0x8000_0000i64) * 16384) by (nonlinear_arith)
        requires
            -0x8000_0000 <= vline <= 0x1_8000_0000i64,
            0 <= ch64 <= 16384,
    ;
    let top: i64 = 20 * vline * ch64;
    let baseline: i64 = top + 14 * ch64;
    CellLayout { x_tenths: x, top_tenths: top, baseline_tenths: baseline }
}

} // verus!
