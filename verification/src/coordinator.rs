//! The resize coordinator: reconciles raw pixel-geometry notifications
//! from the rendering surface into terminal grid dimensions on a fixed
//! cadence.
//!
//! The coordinator holds the most recent pixel geometry.  A geometry
//! update only replaces the held value; it never produces a resize and it
//! never resets the timer.  A timer expiry converts the held geometry to
//! grid dimensions and asks for a resize, leaving the held geometry as it
//! is — a recurring poll/apply cycle, not a one-shot debounce, so the same
//! geometry may be applied again and the session must tolerate redundant
//! resizes.

use vstd::prelude::*;
use crate::geometry::{cols_spec, grid_dims, rows_spec};

verus! {

/// An input to the resize coordinator: either a new pixel geometry from
/// the rendering surface, or the expiry of the fixed-cadence timer.
#[derive(Clone, Copy, PartialEq, Eq, Structural, Debug)]
pub enum GeometryEvent {
    /// The rendering surface reports a new pixel size, already descaled by
    /// the DPI factor.
    Update { width_px: u32, height_px: u32 },
    /// The debounce timer fired.
    TimerExpiry,
}

/// The resize coordinator's state: the most recent pixel geometry and the
/// font's cell metrics used to convert it.
#[derive(Clone, Copy, PartialEq, Eq, Structural, Debug)]
pub struct ResizeCoordinator {
    /// Last reported window width in pixels.
    pub width_px: u32,
    /// Last reported window height in pixels.
    pub height_px: u32,
    /// Width of one monospace glyph cell in pixels.
    pub cell_width_px: u32,
    /// Height of one monospace glyph cell in pixels.
    pub cell_height_px: u32,
}

impl ResizeCoordinator {
    /// The cell metrics must be real glyph sizes: nonzero.
    pub open spec fn wf(self) -> bool {
        self.cell_width_px > 0 && self.cell_height_px > 0
    }

    /// The grid dimensions the held geometry converts to, as
    /// (rows, columns).
    pub open spec fn dims_spec(self) -> (nat, nat) {
        (
            rows_spec(self.height_px as nat, self.cell_height_px as nat),
            cols_spec(self.width_px as nat, self.cell_width_px as nat),
        )
    }

    /// A fresh coordinator holding an initial geometry.
    pub fn new(width_px: u32, height_px: u32, cell_width_px: u32, cell_height_px: u32) -> (r:
        ResizeCoordinator)
        requires
            cell_width_px > 0,
            cell_height_px > 0,
        ensures
            r.wf(),
            r == (ResizeCoordinator { width_px, height_px, cell_width_px, cell_height_px }),
    {
        ResizeCoordinator { width_px, height_px, cell_width_px, cell_height_px }
    }

    /// Feeds the coordinator one event.  A geometry update replaces the
    /// held pixel geometry and asks for nothing; a timer expiry leaves the
    /// state untouched and asks for a resize to the grid dimensions the
    /// held geometry converts to.  The timer is never reset by an update:
    /// whether a resize is requested depends on the event alone.
    pub fn step(&mut self, e: GeometryEvent) -> (r: Option<(u16, u16)>)
        requires
            old(self).wf(),
        ensures
            final(self).wf(),
            match e {
                GeometryEvent::Update { width_px, height_px } => {
                    &&& r is None
                    &&& *final(self) == (ResizeCoordinator {
                        width_px,
                        height_px,
                        ..*old(self)
                    })
                },
                GeometryEvent::TimerExpiry => {
                    &&& *final(self) == *old(self)
                    &&& r matches Some(dims) && (dims.0 as nat, dims.1 as nat) == old(
                        self,
                    ).dims_spec()
                },
            },
    {
        match e {
            GeometryEvent::Update { width_px, height_px } => {
                self.width_px = width_px;
                self.height_px = height_px;
                None
            },
            GeometryEvent::TimerExpiry => {
                Some(grid_dims(self.width_px, self.height_px, self.cell_width_px,
                    self.cell_height_px))
            },
        }
    }
}

/// Law: the cadence is fixed.  A geometry update never requests a resize,
/// and after any sequence of updates the next timer expiry requests
/// exactly the conversion of the last held geometry — updates change what
/// is applied, never when.
pub proof fn lemma_update_then_tick(
    s0: ResizeCoordinator,
    s1: ResizeCoordinator,
    width_px: u32,
    height_px: u32,
)
    requires
        s0.wf(),
        s1 == (ResizeCoordinator { width_px, height_px, ..s0 }),
    ensures
        s1.dims_spec() == (
            rows_spec(height_px as nat, s0.cell_height_px as nat),
            cols_spec(width_px as nat, s0.cell_width_px as nat),
        ),
{
}

} // verus!
