use vterm::color::{
    apply_dim, get_color, resolve_cell_colors, DisplayColor, EngineColor, NamedSlot, DIM_ALPHA,
};

fn rgb(r: u8, g: u8, b: u8) -> DisplayColor {
    DisplayColor { a: 255, r, g, b }
}

#[test]
fn rgb_passes_through_unchanged() {
    let c = get_color(EngineColor::Rgb { r: 12, g: 34, b: 56 });
    assert_eq!(c, rgb(12, 34, 56));
}

#[test]
fn named_slots_resolve_through_the_palette() {
    assert_eq!(get_color(EngineColor::Named(NamedSlot::Foreground)), rgb(235, 218, 177));
    assert_eq!(get_color(EngineColor::Named(NamedSlot::Background)), rgb(40, 39, 39));
    assert_eq!(get_color(EngineColor::Named(NamedSlot::Black)), rgb(40, 39, 39));
    assert_eq!(get_color(EngineColor::Named(NamedSlot::Red)), rgb(203, 35, 29));
    assert_eq!(get_color(EngineColor::Named(NamedSlot::Green)), rgb(152, 150, 26));
    assert_eq!(get_color(EngineColor::Named(NamedSlot::Yellow)), rgb(214, 152, 33));
    assert_eq!(get_color(EngineColor::Named(NamedSlot::Blue)), rgb(69, 132, 135));
    assert_eq!(get_color(EngineColor::Named(NamedSlot::Magenta)), rgb(176, 97, 133));
    assert_eq!(get_color(EngineColor::Named(NamedSlot::Cyan)), rgb(104, 156, 105));
    assert_eq!(get_color(EngineColor::Named(NamedSlot::White)), rgb(168, 152, 131));
    assert_eq!(get_color(EngineColor::Named(NamedSlot::BrightBlack)), rgb(146, 130, 115));
    assert_eq!(get_color(EngineColor::Named(NamedSlot::BrightRed)), rgb(250, 72, 52));
    assert_eq!(get_color(EngineColor::Named(NamedSlot::BrightGreen)), rgb(184, 186, 38));
    assert_eq!(get_color(EngineColor::Named(NamedSlot::BrightYellow)), rgb(249, 188, 47));
    assert_eq!(get_color(EngineColor::Named(NamedSlot::BrightBlue)), rgb(131, 164, 151));
    assert_eq!(get_color(EngineColor::Named(NamedSlot::BrightMagenta)), rgb(210, 133, 154));
    assert_eq!(get_color(EngineColor::Named(NamedSlot::BrightCyan)), rgb(142, 191, 123));
    assert_eq!(get_color(EngineColor::Named(NamedSlot::BrightWhite)), rgb(235, 218, 177));
}

#[test]
fn unrecognized_colors_fall_back_to_background() {
    assert_eq!(get_color(EngineColor::Unknown), rgb(40, 39, 39));
}

#[test]
fn color_mapping_is_deterministic() {
    let inputs = [
        (EngineColor::Rgb { r: 1, g: 2, b: 3 }, EngineColor::Named(NamedSlot::Blue)),
        (EngineColor::Named(NamedSlot::Red), EngineColor::Unknown),
        (EngineColor::Unknown, EngineColor::Rgb { r: 200, g: 100, b: 0 }),
    ];
    for (fg, bg) in inputs {
        for dim in [false, true] {
            for inverse in [false, true] {
                let first = resolve_cell_colors(fg, bg, dim, inverse);
                let second = resolve_cell_colors(fg, bg, dim, inverse);
                assert_eq!(first, second);
            }
        }
    }
}

#[test]
fn dim_preserves_rgb_channels_and_only_drops_opacity() {
    let c = rgb(10, 20, 30);
    let d = apply_dim(c);
    assert_eq!(d.r, 10);
    assert_eq!(d.g, 20);
    assert_eq!(d.b, 30);
    assert_eq!(d.a, DIM_ALPHA);
    assert_ne!(d.a, 0);
}

#[test]
fn inverse_swaps_the_already_dimmed_foreground() {
    let fg = EngineColor::Rgb { r: 9, g: 8, b: 7 };
    let bg = EngineColor::Named(NamedSlot::Green);
    let (f, b) = resolve_cell_colors(fg, bg, true, true);
    // The background slot now holds the dimmed foreground: dim before swap.
    assert_eq!(b, DisplayColor { a: DIM_ALPHA, r: 9, g: 8, b: 7 });
    // The foreground slot holds the plain resolved background.
    assert_eq!(f, rgb(152, 150, 26));
}

#[test]
fn dim_alone_keeps_the_background_opaque() {
    let fg = EngineColor::Named(NamedSlot::Red);
    let bg = EngineColor::Named(NamedSlot::Background);
    let (f, b) = resolve_cell_colors(fg, bg, true, false);
    assert_eq!(f, DisplayColor { a: DIM_ALPHA, r: 203, g: 35, b: 29 });
    assert_eq!(b, rgb(40, 39, 39));
}

#[test]
fn inverse_alone_swaps_fully_opaque_colors() {
    let fg = EngineColor::Named(NamedSlot::Red);
    let bg = EngineColor::Named(NamedSlot::Blue);
    let (f, b) = resolve_cell_colors(fg, bg, false, true);
    assert_eq!(f, rgb(69, 132, 135));
    assert_eq!(b, rgb(203, 35, 29));
}
