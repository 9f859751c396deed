use vterm::cell::Cell;
use vterm::color::DisplayColor;
use vterm::terminal::{read_loop_step, Engine, DEFAULT_COLS, DEFAULT_ROWS};

const FG: DisplayColor = DisplayColor { a: 255, r: 235, g: 218, b: 177 };
const BG: DisplayColor = DisplayColor { a: 255, r: 40, g: 39, b: 39 };

fn find(cells: &[Cell], content: char) -> Option<&Cell> {
    cells.iter().find(|c| c.content == content)
}

#[test]
fn an_engine_starts_with_the_given_geometry() {
    let e = Engine::new(DEFAULT_ROWS, DEFAULT_COLS);
    assert_eq!(e.rows, DEFAULT_ROWS);
    assert_eq!(e.cols, DEFAULT_COLS);
    let cells = e.cells();
    assert_eq!(cells.len(), DEFAULT_ROWS as usize * DEFAULT_COLS as usize);
}

#[test]
fn a_fresh_snapshot_is_blank_with_default_colors() {
    let e = Engine::new(5, 10);
    let cells = e.cells();
    assert_eq!(cells.len(), 50);
    for c in &cells {
        assert_eq!(c.content, ' ');
        assert_eq!(c.fg, FG);
        assert_eq!(c.bg, BG);
        assert_eq!(c.display_offset, 0);
    }
}

#[test]
fn feeding_bytes_shows_up_in_the_next_snapshot() {
    let mut e = Engine::new(DEFAULT_ROWS, DEFAULT_COLS);
    e.feed(&b"x".to_vec());
    let cells = e.cells();
    let hit = find(&cells, 'x').expect("fed character visible");
    assert_eq!(hit.line, 0);
    assert_eq!(hit.column, 0);
    assert_eq!(hit.display_offset, 0);
}

#[test]
fn echo_hi_lands_in_sequential_columns_with_default_colors() {
    let mut e = Engine::new(DEFAULT_ROWS, DEFAULT_COLS);
    e.feed(&b"echo hi\n".to_vec());
    let cells = e.cells();
    let h = cells
        .iter()
        .find(|c| c.content == 'h' && c.column == 5)
        .expect("'h' of \"hi\" visible");
    let i = cells
        .iter()
        .find(|c| c.content == 'i' && c.column == 6)
        .expect("'i' of \"hi\" visible");
    assert_eq!(h.line, i.line);
    assert_eq!(i.column, h.column + 1);
    assert_eq!(h.fg, FG);
    assert_eq!(h.bg, BG);
    assert_eq!(i.fg, FG);
    assert_eq!(i.bg, BG);
}

#[test]
fn escape_sequences_reach_the_snapshot_colors() {
    let mut e = Engine::new(DEFAULT_ROWS, DEFAULT_COLS);
    // Red foreground, then one character.
    e.feed(&b"\x1b[31mr".to_vec());
    let cells = e.cells();
    let r = find(&cells, 'r').expect("styled character visible");
    assert_eq!(r.fg, DisplayColor { a: 255, r: 203, g: 35, b: 29 });
}

#[test]
fn dim_and_inverse_attributes_go_through_the_verified_pipeline() {
    let mut e = Engine::new(DEFAULT_ROWS, DEFAULT_COLS);
    // Dim + inverse, then one character: the background slot must hold
    // the dimmed default foreground.
    e.feed(&b"\x1b[2;7md".to_vec());
    let cells = e.cells();
    let d = find(&cells, 'd').expect("styled character visible");
    assert_eq!(d.bg, DisplayColor { a: 66, r: 235, g: 218, b: 177 });
    assert_eq!(d.fg, BG);
}

#[test]
fn resize_applies_to_engine_and_mirror_and_is_idempotent() {
    let mut e = Engine::new(DEFAULT_ROWS, DEFAULT_COLS);
    e.resize(5, 10);
    assert_eq!((e.rows, e.cols), (5, 10));
    let once = e.cells();
    assert_eq!(once.len(), 50);
    // A second application of the same geometry changes nothing observable.
    e.resize(5, 10);
    assert_eq!((e.rows, e.cols), (5, 10));
    let twice = e.cells();
    assert_eq!(twice.len(), 50);
    assert_eq!(once, twice);
}

#[test]
fn a_read_loop_step_with_bytes_publishes_a_fresh_snapshot() {
    let mut e = Engine::new(DEFAULT_ROWS, DEFAULT_COLS);
    let published = read_loop_step(&mut e, Some(b"ok".to_vec())).expect("snapshot published");
    assert_eq!(published, e.cells());
    assert!(find(&published, 'o').is_some());
    assert!(find(&published, 'k').is_some());
}

#[test]
fn a_failed_read_skips_the_iteration() {
    let mut e = Engine::new(DEFAULT_ROWS, DEFAULT_COLS);
    e.feed(&b"z".to_vec());
    let before = e.cells();
    assert!(read_loop_step(&mut e, None).is_none());
    assert_eq!(e.cells(), before);
}
