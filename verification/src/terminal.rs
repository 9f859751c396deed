//! The session process manager: one shell spawned inside a pseudo-terminal,
//! paired with one terminal-state engine, created together and resized
//! atomically together.
//!
//! The pseudo-terminal and the engine are outside collaborators.  Every
//! call into them stands behind a trusted item whose contract states what
//! the collaborator's source shows; the logic around those calls — feeding
//! bytes, keeping both geometries equal, turning the visible grid into
//! renderable cells — is verified.

use vstd::prelude::*;
use crate::cell::{Cell, RawCell, cells_spec, make_cells};
use crate::color::{EngineColor, NamedSlot};
use crate::keyboard::{KeyEvent, char_utf8_bytes, key_char_spec, key_to_char};
use alacritty_terminal::Term;
use alacritty_terminal::event::{OnResize, VoidListener, WindowSize};
use alacritty_terminal::term::cell::Flags;
use alacritty_terminal::term::test::TermSize;
use alacritty_terminal::tty::{EventedReadWrite, Options, Pty, Shell};
use alacritty_terminal::vte::ansi;
use alacritty_terminal::vte::ansi::NamedColor;

verus! {

/// Rows of the fixed default geometry a session starts with.
pub const DEFAULT_ROWS: u16 = 50;

/// Columns of the fixed default geometry a session starts with.
pub const DEFAULT_COLS: u16 = 100;

/// Upper bound on the bytes one read from the pseudo-terminal returns.
pub const READ_BUFFER_SIZE: usize = 4096;

/// Marker for the session's event policy: the engine's out-of-band events
/// (bells, title changes) are discarded at this layer.  The engine itself
/// is driven with the collaborator's own event-discarding listener, which
/// is that policy in code.
#[derive(Clone, Copy, PartialEq, Eq, Structural, Debug)]
pub struct EventProxy;

/// A write to the shell's input side failed, for instance because the
/// shell has exited.
#[derive(Clone, Copy, PartialEq, Eq, Structural, Debug)]
pub struct PtyWriteError;

#[verifier::external_type_specification]
#[verifier::external_body]
#[verifier::reject_recursive_types(T)]
pub struct ExTerm<T>(Term<T>);

#[verifier::external_type_specification]
#[verifier::external_body]
pub struct ExVoidListener(VoidListener);

#[verifier::external_type_specification]
#[verifier::external_body]
pub struct ExPty(Pty);

#[verifier::external_type_specification]
#[verifier::external_body]
pub struct ExColor(ansi::Color);

#[verifier::external_type_specification]
#[verifier::external_body]
pub struct ExNamedColor(NamedColor);

/// The escape-sequence parser that drives the engine.  Hidden from the
/// verifier: its only field is the outside parser state.
#[verifier::external_body]
pub struct Parser {
    inner: ansi::Processor,
}

/// What the engine's visible grid holds, in display order.
pub uninterp spec fn term_grid(t: Term<VoidListener>) -> Seq<RawCell>;

/// The engine's current scroll offset from the live bottom.
pub uninterp spec fn term_display_offset(t: Term<VoidListener>) -> usize;

/// The engine's grid height in rows.
pub uninterp spec fn term_lines(t: Term<VoidListener>) -> nat;

/// The engine's grid width in columns.
pub uninterp spec fn term_columns(t: Term<VoidListener>) -> nat;

/// The engine state that feeding the given bytes leaves behind.  It is a
/// function of the parser state, the engine state and the bytes alone:
/// the advance path consults the clock only to stamp a timeout instant
/// inside the parser's own synchronized-update state, never to decide
/// anything the engine sees.
pub uninterp spec fn advance_term(p: Parser, t: Term<VoidListener>, bytes: Seq<u8>) -> Term<
    VoidListener,
>;

/// Relies on Term::new: the engine is created with exactly the given grid
/// dimensions.
#[verifier::external_body]
fn engine_new(rows: u16, cols: u16) -> (t: Term<VoidListener>)
    requires
        rows >= 1,
        cols >= 1,
    ensures
        term_lines(t) == rows as nat,
        term_columns(t) == cols as nat,
{
    let size = TermSize::new(cols as usize, rows as usize);
    Term::new(alacritty_terminal::term::Config::default(), &size, VoidListener)
}

/// Relies on Term::resize: the engine's grids are resized to exactly the
/// given dimensions (a resize to the current dimensions returns early and
/// changes nothing).
#[verifier::external_body]
fn engine_resize(t: &mut Term<VoidListener>, rows: u16, cols: u16)
    requires
        rows >= 1,
        cols >= 1,
    ensures
        term_lines(*final(t)) == rows as nat,
        term_columns(*final(t)) == cols as nat,
{
    t.resize(TermSize::new(cols as usize, rows as usize));
}

/// Relies on Processor::new: a fresh parser in its ground state.
#[verifier::external_body]
fn parser_new() -> (p: Parser) {
    Parser { inner: ansi::Processor::new() }
}

/// Relies on Processor::advance: the bytes run through the engine's
/// escape-sequence handler, which mutates cursor, attribute and grid
/// content state but never the grid dimensions — the engine's grids are
/// resized only by Term::resize.  The engine lands in the state that the
/// prior parser state, the prior engine state and the bytes determine; an
/// empty buffer changes nothing.
#[verifier::external_body]
fn engine_advance(p: &mut Parser, t: &mut Term<VoidListener>, bytes: &Vec<u8>)
    ensures
        *final(t) == advance_term(*old(p), *old(t), bytes@),
        bytes@.len() == 0 ==> *final(t) == *old(t),
        term_lines(*final(t)) == term_lines(*old(t)),
        term_columns(*final(t)) == term_columns(*old(t)),
{
    p.inner.advance(t, bytes.as_slice());
}

/// Relies on the engine's color representation alone: each reported color
/// variant maps to the library's closed color type, moving the channel
/// values; indexed and other open-set colors map to the unknown variant.
#[verifier::external_body]
fn conv_color(c: ansi::Color) -> (r: EngineColor) {
    match c {
        ansi::Color::Spec(rgb) => EngineColor::Rgb { r: rgb.r, g: rgb.g, b: rgb.b },
        ansi::Color::Named(n) => conv_named(n),
        ansi::Color::Indexed(_) => EngineColor::Unknown,
    }
}

/// Relies on the engine's named-color enumeration alone: the default
/// foreground and background and the eight standard slots map to their
/// library tags, one arm per variant; the bright slots continue below.
#[verifier::external_body]
fn conv_named(n: NamedColor) -> (r: EngineColor) {
    match n {
        NamedColor::Foreground => EngineColor::Named(NamedSlot::Foreground),
        NamedColor::Background => EngineColor::Named(NamedSlot::Background),
        NamedColor::Black => EngineColor::Named(NamedSlot::Black),
        NamedColor::Red => EngineColor::Named(NamedSlot::Red),
        NamedColor::Green => EngineColor::Named(NamedSlot::Green),
        NamedColor::Yellow => EngineColor::Named(NamedSlot::Yellow),
        NamedColor::Blue => EngineColor::Named(NamedSlot::Blue),
        NamedColor::Magenta => EngineColor::Named(NamedSlot::Magenta),
        NamedColor::Cyan => EngineColor::Named(NamedSlot::Cyan),
        NamedColor::White => EngineColor::Named(NamedSlot::White),
        _ => conv_named_bright(n),
    }
}

/// Relies on the engine's named-color enumeration alone: the eight bright
/// slots map to their library tags, one arm per variant; every other named
/// color maps to the unknown variant.
#[verifier::external_body]
fn conv_named_bright(n: NamedColor) -> (r: EngineColor) {
    match n {
        NamedColor::BrightBlack => EngineColor::Named(NamedSlot::BrightBlack),
        NamedColor::BrightRed => EngineColor::Named(NamedSlot::BrightRed),
        NamedColor::BrightGreen => EngineColor::Named(NamedSlot::BrightGreen),
        NamedColor::BrightYellow => EngineColor::Named(NamedSlot::BrightYellow),
        NamedColor::BrightBlue => EngineColor::Named(NamedSlot::BrightBlue),
        NamedColor::BrightMagenta => EngineColor::Named(NamedSlot::BrightMagenta),
        NamedColor::BrightCyan => EngineColor::Named(NamedSlot::BrightCyan),
        NamedColor::BrightWhite => EngineColor::Named(NamedSlot::BrightWhite),
        _ => EngineColor::Unknown,
    }
}

/// Relies on Term::renderable_content: yields every visible cell in the
/// engine's display order together with the current scroll offset; the
/// dim flag is set when the cell carries the dim attribute, alone or
/// combined with bold.
#[verifier::external_body]
fn engine_grid(t: &Term<VoidListener>) -> (r: (Vec<RawCell>, usize))
    ensures
        r.0@ == term_grid(*t),
        r.1 == term_display_offset(*t),
{
    let content = t.renderable_content();
    let offset = content.display_offset;
    let mut cells = Vec::new();
    for ind in content.display_iter {
        cells.push(RawCell {
            line: ind.point.line.0,
            column: ind.point.column.0,
            content: ind.cell.c,
            fg: conv_color(ind.cell.fg),
            bg: conv_color(ind.cell.bg),
            dim: ind.cell.flags.contains(Flags::DIM) || ind.cell.flags.contains(Flags::DIM_BOLD),
            inverse: ind.cell.flags.contains(Flags::INVERSE),
        });
    }
    (cells, offset)
}

/// Relies on tty::new: spawns the given shell inside a fresh
/// pseudo-terminal with the given dimensions; whether that succeeds
/// depends on the host, so nothing is promised of the outcome.
#[verifier::external_body]
fn pty_spawn(shell: String, rows: u16, cols: u16) -> (r: Option<Pty>) {
    let options = Options {
        shell: Some(Shell::new(shell, Vec::new())),
        working_directory: None,
        drain_on_exit: false,
        env: std::collections::HashMap::new(),
    };
    let size = WindowSize { num_lines: rows, num_cols: cols, cell_width: 1, cell_height: 1 };
    alacritty_terminal::tty::new(&options, size, 0).ok()
}

/// Relies on Pty::on_resize: the new dimensions are forwarded to the
/// underlying pseudo-terminal device.
#[verifier::external_body]
fn pty_resize(p: &mut Pty, rows: u16, cols: u16) {
    let size = WindowSize { num_lines: rows, num_cols: cols, cell_width: 1, cell_height: 1 };
    p.on_resize(size);
}

/// Relies on io::Write::write_all through the pty's writer: on success
/// exactly the given bytes, whole, were handed to the shell's input side;
/// any failure is reported, never swallowed.
#[verifier::external_body]
fn pty_write_bytes(p: &mut Pty, bytes: &Vec<u8>) -> (r: Result<(), PtyWriteError>) {
    match std::io::Write::write_all(p.writer(), bytes.as_slice()) {
        Ok(()) => Ok(()),
        Err(_) => Err(PtyWriteError),
    }
}

/// A duplicated, independently usable handle onto the pseudo-terminal's
/// output stream.  Hidden from the verifier: its only field is an OS file
/// handle.
#[verifier::external_body]
pub struct TtyReader {
    inner: <Pty as EventedReadWrite>::Reader,
}

/// Relies on File::try_clone on the pty's reader: the duplicate reads the
/// same single logical byte stream, so the read side can move to a
/// background task while the session keeps the write side.
#[verifier::external_body]
fn pty_clone_reader(p: &mut Pty) -> (r: Option<TtyReader>) {
    match p.reader().try_clone() {
        Ok(f) => Some(TtyReader { inner: f }),
        Err(_) => None,
    }
}

impl TtyReader {
    /// Relies on io::Read::read: returns at most the fixed buffer's worth
    /// of bytes; a failed read — including a would-block read, the master
    /// side being nonblocking — is reported as nothing so the caller can
    /// skip the iteration.
    #[verifier::external_body]
    pub fn read_chunk(&mut self) -> (r: Option<Vec<u8>>)
        ensures
            r matches Some(v) ==> v@.len() <= READ_BUFFER_SIZE,
    {
        let mut buf = [0u8; 4096];
        match std::io::Read::read(&mut self.inner, &mut buf) {
            Ok(n) => Some(buf[..n].to_vec()),
            Err(_) => None,
        }
    }
}

/// The terminal-state engine pairing: the engine itself, the
/// escape-sequence parser that drives it, and the mirror of the geometry
/// last applied to it.  No I/O lives here, so the whole grid pipeline can
/// be driven and observed directly.
pub struct Engine {
    /// The terminal-state engine mirroring the shell's screen.
    pub term: Term<VoidListener>,
    /// The escape-sequence parser driving the engine.
    pub parser: Parser,
    /// Rows last applied to the engine.
    pub rows: u16,
    /// Columns last applied to the engine.
    pub cols: u16,
}

/// What any resize leaves behind: the engine's grid and the mirrored
/// geometry hold exactly the requested dimensions, whatever the prior
/// state was.
pub open spec fn resize_post(pre: Engine, post: Engine, rows: u16, cols: u16) -> bool {
    &&& post.rows == rows
    &&& post.cols == cols
    &&& term_lines(post.term) == rows as nat
    &&& term_columns(post.term) == cols as nat
}

impl Engine {
    /// The engine invariant: the geometry is never empty and the engine's
    /// grid dimensions equal the mirrored geometry.
    pub open spec fn wf(self) -> bool {
        &&& self.rows >= 1
        &&& self.cols >= 1
        &&& term_lines(self.term) == self.rows as nat
        &&& term_columns(self.term) == self.cols as nat
    }

    /// The engine's geometry as (rows, columns).
    pub open spec fn geometry(self) -> (u16, u16) {
        (self.rows, self.cols)
    }

    /// The snapshot the engine's current state yields.
    pub open spec fn snapshot_spec(self) -> Seq<Cell> {
        cells_spec(term_grid(self.term), term_display_offset(self.term))
    }

    /// Creates an engine with the given grid dimensions and a parser in
    /// its ground state.
    pub fn new(rows: u16, cols: u16) -> (r: Engine)
        requires
            rows >= 1,
            cols >= 1,
        ensures
            r.wf(),
            r.geometry() == (rows, cols),
    {
        let term = engine_new(rows, cols);
        let parser = parser_new();
        Engine { term, parser, rows, cols }
    }

    /// Resizes the engine's grid to exactly the given dimensions; the
    /// parser is not touched.
    pub fn resize(&mut self, rows: u16, cols: u16)
        requires
            old(self).wf(),
            rows >= 1,
            cols >= 1,
        ensures
            final(self).wf(),
            final(self).geometry() == (rows, cols),
            resize_post(*old(self), *final(self), rows, cols),
            final(self).parser == old(self).parser,
    {
        engine_resize(&mut self.term, rows, cols);
        self.rows = rows;
        self.cols = cols;
    }

    /// Feeds a raw byte buffer through the parser: the engine lands in
    /// exactly the state those bytes determine from the prior state.  Only
    /// engine-internal grid state changes; the geometry stays as it is.
    pub fn feed(&mut self, data: &Vec<u8>)
        requires
            old(self).wf(),
        ensures
            final(self).wf(),
            final(self).geometry() == old(self).geometry(),
            final(self).term == advance_term(old(self).parser, old(self).term, data@),
    {
        engine_advance(&mut self.parser, &mut self.term, data);
    }

    /// Produces the renderable snapshot of the currently visible grid:
    /// every visible cell in display order, each one attribute-transformed
    /// through the color pipeline and stamped with the current scroll
    /// offset.
    pub fn cells(&self) -> (r: Vec<Cell>)
        ensures
            r@ == self.snapshot_spec(),
    {
        let (raw, offset) = engine_grid(&self.term);
        make_cells(&raw, offset)
    }
}

/// The live session: exactly one pseudo-terminal and one terminal-state
/// engine, created together with the same default geometry and resized
/// together from then on.
pub struct Terminal {
    /// The pseudo-terminal the shell runs in.
    pub pty: Pty,
    /// The engine pairing that mirrors the shell's screen.
    pub engine: Engine,
}

impl Terminal {
    /// The session invariant: the engine invariant, whose mirrored
    /// geometry is also what the pseudo-terminal was last told — the two
    /// collaborators never disagree about the screen size.
    pub open spec fn wf(self) -> bool {
        self.engine.wf()
    }

    /// The session's geometry as (rows, columns).
    pub open spec fn geometry(self) -> (u16, u16) {
        self.engine.geometry()
    }

    /// The snapshot the session's current engine state yields.
    pub open spec fn snapshot_spec(self) -> Seq<Cell> {
        self.engine.snapshot_spec()
    }

    /// Starts a session: spawns the shell inside a new pseudo-terminal
    /// with the fixed default geometry and pairs it with an engine of the
    /// same geometry.  Startup failure is unrecoverable and reported as
    /// nothing.
    pub fn new(shell: String) -> (r: Option<Terminal>)
        ensures
            r matches Some(t) ==> t.wf() && t.geometry() == (DEFAULT_ROWS, DEFAULT_COLS),
    {
        match pty_spawn(shell, DEFAULT_ROWS, DEFAULT_COLS) {
            None => None,
            Some(pty) => Some(Terminal { pty, engine: Engine::new(DEFAULT_ROWS, DEFAULT_COLS) }),
        }
    }

    /// Applies a new geometry to the pseudo-terminal and the engine
    /// together: no caller ever observes one resized and the other not.
    /// The parser is not touched.
    pub fn resize(&mut self, rows: u16, cols: u16)
        requires
            old(self).wf(),
            rows >= 1,
            cols >= 1,
        ensures
            final(self).wf(),
            final(self).geometry() == (rows, cols),
            resize_post(old(self).engine, final(self).engine, rows, cols),
            final(self).engine.parser == old(self).engine.parser,
    {
        pty_resize(&mut self.pty, rows, cols);
        self.engine.resize(rows, cols);
    }

    /// Feeds a raw byte buffer through the engine's parser: the engine
    /// lands in exactly the state those bytes determine from the prior
    /// state.  Only engine-internal grid state changes; the geometry stays
    /// as it is.
    pub fn update(&mut self, data: Vec<u8>)
        requires
            old(self).wf(),
        ensures
            final(self).wf(),
            final(self).geometry() == old(self).geometry(),
            final(self).engine.term == advance_term(
                old(self).engine.parser,
                old(self).engine.term,
                data@,
            ),
    {
        self.engine.feed(&data);
    }

    /// Writes one character's UTF-8 byte encoding, whole, to the shell's
    /// input side.  A failed write is propagated, never swallowed; the
    /// engine state is untouched either way.
    pub fn write_to_pty(&mut self, c: char) -> (r: Result<(), PtyWriteError>)
        requires
            old(self).wf(),
        ensures
            final(self).wf(),
            final(self).engine == old(self).engine,
    {
        let bytes = char_utf8_bytes(c);
        pty_write_bytes(&mut self.pty, &bytes)
    }

    /// Produces the renderable snapshot of the currently visible grid.
    pub fn cells(&self) -> (r: Vec<Cell>)
        ensures
            r@ == self.snapshot_spec(),
    {
        self.engine.cells()
    }

    /// Hands out a duplicate read handle onto the pseudo-terminal's
    /// output, for the read loop; the session keeps the write side.
    pub fn new_reader(&mut self) -> (r: Option<TtyReader>)
        requires
            old(self).wf(),
        ensures
            final(self).wf(),
            final(self).engine == old(self).engine,
    {
        pty_clone_reader(&mut self.pty)
    }
}

/// One iteration of the read loop's decision: bytes that arrived are fed
/// to the engine and a fresh snapshot is published; a failed read skips
/// the iteration and leaves the engine exactly as it was.
pub fn read_loop_step(e: &mut Engine, chunk: Option<Vec<u8>>) -> (r: Option<Vec<Cell>>)
    requires
        old(e).wf(),
    ensures
        final(e).wf(),
        final(e).geometry() == old(e).geometry(),
        chunk is None ==> r is None && *final(e) == *old(e),
        chunk matches Some(bytes) ==> {
            &&& final(e).term == advance_term(old(e).parser, old(e).term, bytes@)
            &&& r matches Some(cells) && cells@ == final(e).snapshot_spec()
        },
{
    match chunk {
        Some(bytes) => {
            e.feed(&bytes);
            Some(e.cells())
        },
        None => None,
    }
}

/// Routes one keyboard event to the session's input side: a character key
/// writes that character, Enter writes a newline, every other key writes
/// nothing and leaves the session untouched.
pub fn handle_key(t: &mut Terminal, e: KeyEvent) -> (r: Result<(), PtyWriteError>)
    requires
        old(t).wf(),
    ensures
        final(t).wf(),
        final(t).engine == old(t).engine,
        key_char_spec(e) is None ==> *final(t) == *old(t) && r is Ok,
{
    match key_to_char(e) {
        Some(c) => t.write_to_pty(c),
        None => Ok(()),
    }
}

/// Law: feeding is deterministic.  From one parser and engine state, the
/// same bytes lead to the same engine state — so what a snapshot shows
/// after a feed depends only on what was fed.
pub proof fn lemma_feed_deterministic(
    p: Parser,
    t: Term<VoidListener>,
    bytes: Seq<u8>,
    r1: Term<VoidListener>,
    r2: Term<VoidListener>,
)
    requires
        r1 == advance_term(p, t, bytes),
        r2 == advance_term(p, t, bytes),
    ensures
        r1 == r2,
{
}

/// Law: resize is idempotent.  Applying the same geometry twice in
/// succession leaves the mirrored geometry — the value both collaborators
/// were given — and the engine's grid dimensions exactly where one
/// application left them, with no observable difference.
pub proof fn lemma_resize_idempotent(s0: Engine, s1: Engine, s2: Engine, rows: u16, cols: u16)
    requires
        resize_post(s0, s1, rows, cols),
        resize_post(s1, s2, rows, cols),
    ensures
        s2.geometry() == s1.geometry(),
        s1.geometry() == (rows, cols),
        term_lines(s2.term) == term_lines(s1.term),
        term_columns(s2.term) == term_columns(s1.term),
{
}

} // verus!
