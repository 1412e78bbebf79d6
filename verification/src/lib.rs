//! A minimal real-time rendering engine for a fixed-function graphics
//! coprocessor with a single double-buffered framebuffer.
//!
//! The library is organised around four pieces:
//!
//! * [`display::Display`] — the immediate-mode draw target.  It owns the
//!   coprocessor command FIFO and turns clear / fill-rectangle / plot-pixel
//!   requests into vertex-command packets, clipping every request to the
//!   configured surface bounds.
//! * [`video::Video`] — a model of the video subsystem: the double-buffer
//!   swap discipline (publish a "next" framebuffer, commit it at the
//!   vertical-blank boundary) and the display timing configuration.
//! * [`engine::Engine`] — the orchestrator.  `Engine::run` performs the
//!   one-time bring-up, then drives the per-frame lifecycle
//!   (input scan, `update`, `draw`, flush, publish, vertical blank, flip)
//!   in a fixed order.
//! * [`engine::State`] — the lifecycle contract implemented by the host
//!   application, with safe no-op defaults for every hook.

use vstd::prelude::*;

pub mod audio;
pub mod color;
pub mod command;
pub mod display;
pub mod engine;
pub mod geometry;
pub mod pad;
pub mod video;

verus! {

/// An error surfaced by the draw-target contract.
///
/// Invalid coordinates are clipped rather than rejected, so the only way a
/// drawing call can fail is by exhausting the command FIFO: a write beyond
/// the FIFO's capacity is reported as `BufferFull`, never performed.
#[derive(Clone, Copy, Debug, PartialEq, Eq, Structural)]
pub enum DrawError {
    BufferFull,
}

} // verus!
