//! Renderable cells: the per-cell transform from what the terminal-state
//! engine reports to a fully colored, immutable snapshot cell.

use vstd::prelude::*;
use crate::color::{DisplayColor, EngineColor, cell_colors_spec, resolve_cell_colors};

verus! {

/// One visible grid position exactly as the terminal-state engine reports
/// it: its location, its character, its two color values and the visual
/// flags that still have to be applied.
#[derive(Clone, Copy, PartialEq, Eq, Structural, Debug)]
pub struct RawCell {
    /// Vertical position relative to the engine's origin; negative when
    /// scrollback is in view.
    pub line: i32,
    /// Zero-based horizontal position.
    pub column: usize,
    /// The display character.
    pub content: char,
    /// Foreground color, not yet attribute-transformed.
    pub fg: EngineColor,
    /// Background color, not yet attribute-transformed.
    pub bg: EngineColor,
    /// Whether the dim attribute is active on this cell.
    pub dim: bool,
    /// Whether the inverse attribute is active on this cell.
    pub inverse: bool,
}

/// A single renderable grid position at the moment of a snapshot, with
/// both colors fully resolved and attribute-transformed.
#[derive(Clone, Copy, PartialEq, Eq, Structural, Debug)]
pub struct Cell {
    /// Zero-based horizontal position.
    pub column: usize,
    /// Vertical position relative to the engine's origin; negative when
    /// scrollback is in view.
    pub line: i32,
    /// The display character.
    pub content: char,
    /// Scroll offset applied uniformly to every cell of the snapshot.
    pub display_offset: usize,
    /// Fully resolved foreground color.
    pub fg: DisplayColor,
    /// Fully resolved background color.
    pub bg: DisplayColor,
}

/// The renderable cell a raw engine cell turns into: position and
/// character are kept, the colors go through the attribute pipeline.
pub open spec fn cell_spec(raw: RawCell, display_offset: usize) -> Cell {
    let colors = cell_colors_spec(raw.fg, raw.bg, raw.dim, raw.inverse);
    Cell {
        column: raw.column,
        line: raw.line,
        content: raw.content,
        display_offset: display_offset,
        fg: colors.0,
        bg: colors.1,
    }
}

/// A whole snapshot: every raw cell transformed, in the engine's display
/// order, all carrying the same scroll offset.
pub open spec fn cells_spec(grid: Seq<RawCell>, display_offset: usize) -> Seq<Cell> {
    grid.map_values(|raw: RawCell| cell_spec(raw, display_offset))
}

/// Builds one renderable cell from a raw engine cell.
pub fn make_cell(raw: &RawCell, display_offset: usize) -> (r: Cell)
    ensures
        r == cell_spec(*raw, display_offset),
{
    let colors = resolve_cell_colors(raw.fg, raw.bg, raw.dim, raw.inverse);
    Cell {
        column: raw.column,
        line: raw.line,
        content: raw.content,
        display_offset: display_offset,
        fg: colors.0,
        bg: colors.1,
    }
}

/// Builds the full snapshot from the raw grid, preserving the engine's
/// display order.
pub fn make_cells(grid: &Vec<RawCell>, display_offset: usize) -> (r: Vec<Cell>)
    ensures
        r@ == cells_spec(grid@, display_offset),
{
    let mut res: Vec<Cell> = Vec::new();
    let mut i: usize = 0;
    while i < grid.len()
        invariant
            i <= grid.len(),
            res@.len() == i as nat,
            forall|j: int| 0 <= j < i ==> res@[j] == cell_spec(grid@[j], display_offset),
        decreases grid.len() - i,
    {
        let c = make_cell(&grid[i], display_offset);
        res.push(c);
        i = i + 1;
    }
    assert(res@ =~= cells_spec(grid@, display_offset));
    res
}

/// Law: a snapshot is a faithful image of the engine's grid.  It has one
/// cell per raw cell, in the same order; each keeps its position and
/// character, carries the snapshot's scroll offset, and wears exactly the
/// colors the attribute pipeline assigns.  So whatever a byte feed did to
/// the grid, the next snapshot shows it, cell for cell.
pub proof fn lemma_snapshot_faithful(grid: Seq<RawCell>, display_offset: usize)
    ensures
        cells_spec(grid, display_offset).len() == grid.len(),
        forall|i: int|
            0 <= i < grid.len() ==> {
                let c = #[trigger] cells_spec(grid, display_offset)[i];
                &&& c.column == grid[i].column
                &&& c.line == grid[i].line
                &&& c.content == grid[i].content
                &&& c.display_offset == display_offset
                &&& (c.fg, c.bg) == cell_colors_spec(
                    grid[i].fg,
                    grid[i].bg,
                    grid[i].dim,
                    grid[i].inverse,
                )
            },
{
}

} // verus!
