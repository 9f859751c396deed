//! The attribute color mapper: resolves the color values reported by the
//! terminal-state engine to concrete display colors and applies the visual
//! attribute transforms (dimming, inversion).

use vstd::prelude::*;

verus! {

/// Opacity given to dimmed foreground text: faded, but never fully
/// transparent.
pub const DIM_ALPHA: u8 = 66;

/// A fully resolved display color: an opacity plus red, green and blue
/// channels.
#[derive(Clone, Copy, PartialEq, Eq, Structural, Debug)]
pub struct DisplayColor {
    pub a: u8,
    pub r: u8,
    pub g: u8,
    pub b: u8,
}

/// The named palette slots a terminal engine can report: default foreground
/// and background plus the eight standard and eight bright ANSI colors.
#[derive(Clone, Copy, PartialEq, Eq, Structural, Debug)]
pub enum NamedSlot {
    Foreground,
    Background,
    Black,
    Red,
    Green,
    Yellow,
    Blue,
    Magenta,
    Cyan,
    White,
    BrightBlack,
    BrightRed,
    BrightGreen,
    BrightYellow,
    BrightBlue,
    BrightMagenta,
    BrightCyan,
    BrightWhite,
}

/// A color as the terminal-state engine reports it: an explicit RGB triple,
/// one of the named palette slots, or anything else the engine may emit,
/// which falls back to the background color.
#[derive(Clone, Copy, PartialEq, Eq, Structural, Debug)]
pub enum EngineColor {
    Rgb { r: u8, g: u8, b: u8 },
    Named(NamedSlot),
    Unknown,
}

/// A fully opaque color built from its three channels.
pub open spec fn opaque_spec(r: u8, g: u8, b: u8) -> DisplayColor {
    DisplayColor { a: 255, r: r, g: g, b: b }
}

/// The fixed palette: the concrete color of each named slot.
pub open spec fn palette_spec(slot: NamedSlot) -> DisplayColor {
    match slot {
        NamedSlot::Foreground => opaque_spec(235, 218, 177),
        NamedSlot::Background => opaque_spec(40, 39, 39),
        NamedSlot::Black => opaque_spec(40, 39, 39),
        NamedSlot::Red => opaque_spec(203, 35, 29),
        NamedSlot::Green => opaque_spec(152, 150, 26),
        NamedSlot::Yellow => opaque_spec(214, 152, 33),
        NamedSlot::Blue => opaque_spec(69, 132, 135),
        NamedSlot::Magenta => opaque_spec(176, 97, 133),
        NamedSlot::Cyan => opaque_spec(104, 156, 105),
        NamedSlot::White => opaque_spec(168, 152, 131),
        NamedSlot::BrightBlack => opaque_spec(146, 130, 115),
        NamedSlot::BrightRed => opaque_spec(250, 72, 52),
        NamedSlot::BrightGreen => opaque_spec(184, 186, 38),
        NamedSlot::BrightYellow => opaque_spec(249, 188, 47),
        NamedSlot::BrightBlue => opaque_spec(131, 164, 151),
        NamedSlot::BrightMagenta => opaque_spec(210, 133, 154),
        NamedSlot::BrightCyan => opaque_spec(142, 191, 123),
        NamedSlot::BrightWhite => opaque_spec(235, 218, 177),
    }
}

/// Resolution of an engine color: explicit RGB passes through at full
/// opacity, named slots go through the palette, anything unrecognized
/// falls back to the background color.
pub open spec fn resolve_spec(c: EngineColor) -> DisplayColor {
    match c {
        EngineColor::Rgb { r, g, b } => opaque_spec(r, g, b),
        EngineColor::Named(slot) => palette_spec(slot),
        EngineColor::Unknown => palette_spec(NamedSlot::Background),
    }
}

/// The dim transform: the RGB channels are kept, only the opacity drops.
pub open spec fn dim_spec(c: DisplayColor) -> DisplayColor {
    DisplayColor { a: DIM_ALPHA, r: c.r, g: c.g, b: c.b }
}

/// The full per-cell color pipeline: resolve both colors, dim the
/// foreground if asked, and only then swap the pair if the cell is
/// inverted, so an inverted cell carries its already-dimmed foreground
/// into the background slot.
pub open spec fn cell_colors_spec(
    fg: EngineColor,
    bg: EngineColor,
    dim: bool,
    inverse: bool,
) -> (DisplayColor, DisplayColor) {
    let f = if dim {
        dim_spec(resolve_spec(fg))
    } else {
        resolve_spec(fg)
    };
    let b = resolve_spec(bg);
    if inverse {
        (b, f)
    } else {
        (f, b)
    }
}

/// Resolves one engine color to its concrete display color.
pub fn get_color(c: EngineColor) -> (r: DisplayColor)
    ensures
        r == resolve_spec(c),
{
    match c {
        EngineColor::Rgb { r, g, b } => DisplayColor { a: 255, r: r, g: g, b: b },
        EngineColor::Named(slot) => match slot {
            NamedSlot::Foreground => DisplayColor { a: 255, r: 235, g: 218, b: 177 },
            NamedSlot::Background => DisplayColor { a: 255, r: 40, g: 39, b: 39 },
            NamedSlot::Black => DisplayColor { a: 255, r: 40, g: 39, b: 39 },
            NamedSlot::Red => DisplayColor { a: 255, r: 203, g: 35, b: 29 },
            NamedSlot::Green => DisplayColor { a: 255, r: 152, g: 150, b: 26 },
            NamedSlot::Yellow => DisplayColor { a: 255, r: 214, g: 152, b: 33 },
            NamedSlot::Blue => DisplayColor { a: 255, r: 69, g: 132, b: 135 },
            NamedSlot::Magenta => DisplayColor { a: 255, r: 176, g: 97, b: 133 },
            NamedSlot::Cyan => DisplayColor { a: 255, r: 104, g: 156, b: 105 },
            NamedSlot::White => DisplayColor { a: 255, r: 168, g: 152, b: 131 },
            NamedSlot::BrightBlack => DisplayColor { a: 255, r: 146, g: 130, b: 115 },
            NamedSlot::BrightRed => DisplayColor { a: 255, r: 250, g: 72, b: 52 },
            NamedSlot::BrightGreen => DisplayColor { a: 255, r: 184, g: 186, b: 38 },
            NamedSlot::BrightYellow => DisplayColor { a: 255, r: 249, g: 188, b: 47 },
            NamedSlot::BrightBlue => DisplayColor { a: 255, r: 131, g: 164, b: 151 },
            NamedSlot::BrightMagenta => DisplayColor { a: 255, r: 210, g: 133, b: 154 },
            NamedSlot::BrightCyan => DisplayColor { a: 255, r: 142, g: 191, b: 123 },
            NamedSlot::BrightWhite => DisplayColor { a: 255, r: 235, g: 218, b: 177 },
        },
        EngineColor::Unknown => DisplayColor { a: 255, r: 40, g: 39, b: 39 },
    }
}

/// Applies the dim transform to an already resolved color.
pub fn apply_dim(c: DisplayColor) -> (r: DisplayColor)
    ensures
        r == dim_spec(c),
{
    DisplayColor { a: DIM_ALPHA, r: c.r, g: c.g, b: c.b }
}

/// Resolves a cell's foreground and background, applying the dim and
/// inverse attribute transforms in that order.
pub fn resolve_cell_colors(fg: EngineColor, bg: EngineColor, dim: bool, inverse: bool) -> (r: (
    DisplayColor,
    DisplayColor,
))
    ensures
        r == cell_colors_spec(fg, bg, dim, inverse),
{
    let mut f = get_color(fg);
    let b = get_color(bg);
    if dim {
        f = apply_dim(f);
    }
    if inverse {
        (b, f)
    } else {
        (f, b)
    }
}

/// Law: color mapping is deterministic.  Two results of the per-cell color
/// pipeline on the same color values and flags are identical.
pub proof fn lemma_color_mapping_deterministic(
    fg: EngineColor,
    bg: EngineColor,
    dim: bool,
    inverse: bool,
    r1: (DisplayColor, DisplayColor),
    r2: (DisplayColor, DisplayColor),
)
    requires
        r1 == cell_colors_spec(fg, bg, dim, inverse),
        r2 == cell_colors_spec(fg, bg, dim, inverse),
    ensures
        r1 == r2,
{
}

/// Law: the dim transform preserves the RGB channels and changes only the
/// opacity, to a fixed value that is low but not full transparency.
pub proof fn lemma_dim_preserves_channels(c: DisplayColor)
    ensures
        dim_spec(c).r == c.r,
        dim_spec(c).g == c.g,
        dim_spec(c).b == c.b,
        dim_spec(c).a == DIM_ALPHA,
        dim_spec(c).a != 0,
{
}

/// Law: inversion applies after dimming.  On a cell with both flags set,
/// the background slot of the result holds the already-dimmed foreground
/// color and the foreground slot holds the plain resolved background.
pub proof fn lemma_inverse_applies_after_dim(fg: EngineColor, bg: EngineColor)
    ensures
        cell_colors_spec(fg, bg, true, true).0 == resolve_spec(bg),
        cell_colors_spec(fg, bg, true, true).1 == dim_spec(resolve_spec(fg)),
{
}

} // verus!
