//! The coprocessor command protocol.
//!
//! The display surface drives a streaming command processor: every drawing
//! intent becomes a packet of encoded commands appended to a fixed-capacity
//! FIFO. This module defines the command alphabet, the byte cost of each
//! command (what it consumes of the FIFO), the packets the draw target
//! emits, and the abstract meaning of a frame's worth of draw operations:
//! which color each pixel of the surface shows once they execute.

use vstd::prelude::*;

use crate::color::Color;
use crate::geometry::Pixel;

verus! {

/// A vertex attribute of the fixed vertex format (position + color, no
/// texture).
#[derive(Clone, Copy, Debug, PartialEq, Eq, Structural)]
pub enum VtxAttr {
    Position,
    TexCoord0,
    Color0,
}

/// One coprocessor command, as the FIFO carries it.
///
/// Immediate-mode drawing uses `Begin` / `Position` / `VertexColor` / `End`
/// packets in the fixed vertex format; `Poke` writes a single pixel directly
/// into the framebuffer, bypassing the FIFO. The remaining commands
/// configure the fixed-function pipeline (one-time setup) or end a frame.
#[derive(Clone, Copy, Debug, PartialEq, Eq, Structural)]
pub enum GxCommand {
    /// Opens an immediate-mode quad packet with `count` vertices.
    Begin { count: u16 },
    /// One vertex position; the draw target always emits z = 0.
    Position { x: u16, y: u16 },
    /// The color attribute of the vertex opened just before.
    VertexColor(Color),
    /// Closes an immediate-mode packet.
    End,
    /// A direct single-pixel write, bypassing the FIFO.
    Poke { x: u16, y: u16, color: Color },
    /// Sets the color the copy-to-framebuffer step clears with.
    SetCopyClear(Color),
    /// Pixel format RGB8 with a 24-bit linear z buffer.
    SetPixelFormat,
    /// Viewport covering the whole `width x height` surface.
    SetViewport { width: u16, height: u16 },
    /// Vertical copy scale, given as the embedded and external heights whose
    /// ratio it is.
    SetDispCopyYScale { embed: u16, external: u16 },
    /// Source rectangle of the copy-to-framebuffer step.
    SetDispCopySrc { width: u16, height: u16 },
    /// Destination rectangle of the copy-to-framebuffer step.
    SetDispCopyDst { width: u16, height: u16 },
    /// Anti-aliasing sample filter for the copy step.
    SetCopyFilter { anti_aliasing: u8 },
    /// Field rendering mode; `half_aspect` when the display height is twice
    /// the external framebuffer height.
    SetFieldMode { field_rendering: u8, half_aspect: bool },
    /// Gamma 1.0 for the copy step.
    SetDispCopyGamma,
    /// Clears the vertex descriptor table.
    ClearVtxDesc,
    /// Invalidates the vertex cache.
    InvalidateVtxCache,
    /// Invalidates all texture cache lines.
    InvalidateTexAll,
    /// Declares whether `attr` is fed directly per vertex.
    SetVtxDesc { attr: VtxAttr, direct: bool },
    /// Declares the component format of `attr` in vertex format slot 0.
    SetVtxAttrFmt { attr: VtxAttr },
    /// Z-buffer mode: compare less-or-equal when enabled.
    SetZMode { enable: bool, update: bool },
    /// Number of color channels.
    SetNumChans(u8),
    /// Number of texture-coordinate generators.
    SetNumTexGens(u8),
    /// Texture environment stage 0 passes the vertex color through.
    SetTevOp,
    /// Texture environment stage 0 ordering.
    SetTevOrder,
    /// Loads the identity position matrix translated to z = -100.
    LoadPosMtx,
    /// Loads an orthographic projection mapping screen pixels directly to
    /// clip space over a `width x height` surface.
    LoadOrthoProjection { width: u16, height: u16 },
    /// Standard src-over alpha blending.
    SetBlendMode,
    /// Whether rendering updates the alpha channel.
    SetAlphaUpdate(bool),
    /// Alpha compare always passes.
    SetAlphaCompare,
    /// Whether rendering updates the color channels.
    SetColorUpdate(bool),
    /// Face culling disabled.
    SetCullMode,
    /// Clipping enabled.
    SetClipMode,
    /// Scissor covering the whole `width x height` surface.
    SetScissor { width: u16, height: u16 },
    /// Waits until every queued command has finished executing.
    DrawDone,
    /// Copies the internal render target into framebuffer `buffer`.
    CopyDisplay { buffer: u8 },
}

/// How many bytes of the command FIFO a command consumes. Direct pixel
/// pokes bypass the FIFO and cost nothing; a vertex position is three
/// 32-bit floats; a vertex color is four bytes; every state command is
/// modeled at eight bytes.
pub open spec fn cmd_bytes(c: GxCommand) -> nat {
    match c {
        GxCommand::Begin { .. } => 3,
        GxCommand::Position { .. } => 12,
        GxCommand::VertexColor(_) => 4,
        GxCommand::End => 0,
        GxCommand::Poke { .. } => 0,
        _ => 8,
    }
}

/// Total FIFO bytes of a command stream.
pub open spec fn stream_bytes(s: Seq<GxCommand>) -> nat
    decreases s.len(),
{
    if s.len() == 0 {
        0
    } else {
        stream_bytes(s.drop_last()) + cmd_bytes(s.last())
    }
}

pub proof fn lemma_stream_bytes_push(s: Seq<GxCommand>, c: GxCommand)
    ensures
        stream_bytes(s.push(c)) == stream_bytes(s) + cmd_bytes(c),
{
    assert(s.push(c).drop_last() =~= s);
}

/// The FIFO bytes one quad packet consumes: `Begin`, then four vertices of
/// position and color, then `End`.
pub const QUAD_PACKET_BYTES: usize = 67;

/// The immediate-mode packet that fills the closed pixel range
/// `[x0, x1] x [y0, y1]` with `color`: one quad of four vertices, each a
/// position followed by its color attribute, corners in top-left,
/// top-right, bottom-right, bottom-left order.
pub open spec fn quad_packet(x0: u16, y0: u16, x1: u16, y1: u16, color: Color) -> Seq<GxCommand> {
    seq![
        GxCommand::Begin { count: 4 },
        GxCommand::Position { x: x0, y: y0 },
        GxCommand::VertexColor(color),
        GxCommand::Position { x: x1, y: y0 },
        GxCommand::VertexColor(color),
        GxCommand::Position { x: x1, y: y1 },
        GxCommand::VertexColor(color),
        GxCommand::Position { x: x0, y: y1 },
        GxCommand::VertexColor(color),
        GxCommand::End,
    ]
}

/// The quad packet is faithful: the encoded commands determine the filled
/// range and the color, so the coprocessor, which sees only the FIFO,
/// draws exactly the rectangle that was requested.
pub proof fn lemma_quad_packet_faithful(
    x0: u16,
    y0: u16,
    x1: u16,
    y1: u16,
    color: Color,
    u0: u16,
    v0: u16,
    u1: u16,
    v1: u16,
    other: Color,
)
    requires
        quad_packet(x0, y0, x1, y1, color) == quad_packet(u0, v0, u1, v1, other),
    ensures
        x0 == u0 && y0 == v0 && x1 == u1 && y1 == v1 && color == other,
{
    assert(quad_packet(x0, y0, x1, y1, color)[1] == quad_packet(u0, v0, u1, v1, other)[1]);
    assert(quad_packet(x0, y0, x1, y1, color)[2] == quad_packet(u0, v0, u1, v1, other)[2]);
    assert(quad_packet(x0, y0, x1, y1, color)[5] == quad_packet(u0, v0, u1, v1, other)[5]);
}

/// The commands that end a frame: wait for the queue to drain, set the
/// final z mode, and copy the render target into framebuffer `framebuffer`.
pub open spec fn end_frame_commands(framebuffer: u8) -> Seq<GxCommand> {
    seq![
        GxCommand::DrawDone,
        GxCommand::SetZMode { enable: true, update: true },
        GxCommand::CopyDisplay { buffer: framebuffer },
    ]
}

/// An abstract drawing operation, the meaning of one emitted packet.
/// Rectangles and plots are stored already clipped: their coordinates lie
/// within the surface bounds.
#[derive(Clone, Copy, Debug, PartialEq, Eq, Structural)]
pub enum DrawOp {
    /// Every pixel of the surface becomes `color`.
    Clear(Color),
    /// Every pixel of the closed range `[x0, x1] x [y0, y1]` becomes
    /// `color`.
    FillRect { x0: u16, y0: u16, x1: u16, y1: u16, color: Color },
    /// The single pixel `(x, y)` becomes `color`.
    Plot { x: u16, y: u16, color: Color },
}

/// Whether `op` writes the pixel `(x, y)`.
pub open spec fn covers(op: DrawOp, x: int, y: int) -> bool {
    match op {
        DrawOp::Clear(_) => true,
        DrawOp::FillRect { x0, y0, x1, y1, .. } => x0 <= x <= x1 && y0 <= y <= y1,
        DrawOp::Plot { x: px, y: py, .. } => px == x && py == y,
    }
}

/// The color `op` writes.
pub open spec fn op_color(op: DrawOp) -> Color {
    match op {
        DrawOp::Clear(c) => c,
        DrawOp::FillRect { color, .. } => color,
        DrawOp::Plot { color, .. } => color,
    }
}

/// The color pixel `(x, y)` shows after the operations `ops` execute in
/// order over a surface that showed `base` there: the last operation that
/// covers the pixel wins; a pixel no operation covers keeps `base`.
pub open spec fn pixel_at(ops: Seq<DrawOp>, x: int, y: int, base: Color) -> Color
    decreases ops.len(),
{
    if ops.len() == 0 {
        base
    } else if covers(ops.last(), x, y) {
        op_color(ops.last())
    } else {
        pixel_at(ops.drop_last(), x, y, base)
    }
}

/// Whether `op` writes only pixels of a `width x height` surface.
pub open spec fn op_in_bounds(op: DrawOp, width: u16, height: u16) -> bool {
    match op {
        DrawOp::Clear(_) => true,
        DrawOp::FillRect { x0, y0, x1, y1, .. } => x0 <= x1 < width && y0 <= y1 < height,
        DrawOp::Plot { x, y, .. } => x < width && y < height,
    }
}

/// The clipping invariant on a pending operation stream: every operation
/// addresses pixel coordinates within the configured surface bounds.
pub open spec fn ops_in_bounds(ops: Seq<DrawOp>, width: u16, height: u16) -> bool {
    forall|i: int| 0 <= i < ops.len() ==> op_in_bounds(#[trigger] ops[i], width, height)
}

/// A clear supersedes every draw issued before it in the same frame: after
/// `clear(c)`, every pixel shows `c`, whatever `ops` drew.
pub proof fn lemma_clear_supersedes(ops: Seq<DrawOp>, c: Color, x: int, y: int, base: Color)
    ensures
        pixel_at(ops.push(DrawOp::Clear(c)), x, y, base) == c,
{
}

/// Clear idempotence: clearing twice with the same color produces a surface
/// identical, pixel for pixel, to clearing once.
pub proof fn lemma_clear_idempotent(ops: Seq<DrawOp>, c: Color, x: int, y: int, base: Color)
    ensures
        pixel_at(ops.push(DrawOp::Clear(c)).push(DrawOp::Clear(c)), x, y, base) == pixel_at(
            ops.push(DrawOp::Clear(c)),
            x,
            y,
            base,
        ),
{
}

/// Draw-order determinism: where two filled rectangles overlap, the pixel
/// shows the color of the one issued later, never the earlier one.
pub proof fn lemma_draw_order(
    ops: Seq<DrawOp>,
    first: DrawOp,
    second: DrawOp,
    x: int,
    y: int,
    base: Color,
)
    requires
        covers(second, x, y),
    ensures
        pixel_at(ops.push(first).push(second), x, y, base) == op_color(second),
{
}

/// A pixel that no operation of `ops` covers keeps the base color.
pub proof fn lemma_uncovered_pixel_unchanged(ops: Seq<DrawOp>, x: int, y: int, base: Color)
    requires
        forall|i: int| 0 <= i < ops.len() ==> !covers(#[trigger] ops[i], x, y),
    ensures
        pixel_at(ops, x, y, base) == base,
    decreases ops.len(),
{
    if ops.len() > 0 {
        assert(!covers(ops[ops.len() - 1], x, y));
        lemma_uncovered_pixel_unchanged(ops.drop_last(), x, y, base);
    }
}

/// The clipping invariant, stated over the surface: operations confined to
/// the surface bounds never change a pixel outside `[0, width) x [0, height)`.
pub proof fn lemma_out_of_bounds_pixel_unchanged(
    ops: Seq<DrawOp>,
    width: u16,
    height: u16,
    x: int,
    y: int,
    base: Color,
)
    requires
        ops_in_bounds(ops, width, height),
        !(0 <= x < width && 0 <= y < height),
        forall|i: int| 0 <= i < ops.len() ==> !(#[trigger] ops[i] is Clear),
    ensures
        pixel_at(ops, x, y, base) == base,
{
    assert forall|i: int| 0 <= i < ops.len() implies !covers(#[trigger] ops[i], x, y) by {
        assert(op_in_bounds(ops[i], width, height));
    }
    lemma_uncovered_pixel_unchanged(ops, x, y, base);
}

/// The plotted operations a pixel batch yields on a `width x height`
/// surface: one plot per in-bounds pixel, in batch order; out-of-bounds
/// pixels are dropped, never wrapped or clamped into range.
pub open spec fn plots_of(pixels: Seq<Pixel>, width: u16, height: u16) -> Seq<DrawOp>
    decreases pixels.len(),
{
    if pixels.len() == 0 {
        Seq::empty()
    } else {
        let rest = plots_of(pixels.drop_last(), width, height);
        let p = pixels.last();
        if 0 <= p.0.x < width as int && 0 <= p.0.y < height as int {
            rest.push(DrawOp::Plot { x: p.0.x as u16, y: p.0.y as u16, color: p.1 })
        } else {
            rest
        }
    }
}

/// The poke commands a pixel batch yields: the FIFO-level image of
/// [`plots_of`].
pub open spec fn pokes_of(pixels: Seq<Pixel>, width: u16, height: u16) -> Seq<GxCommand>
    decreases pixels.len(),
{
    if pixels.len() == 0 {
        Seq::empty()
    } else {
        let rest = pokes_of(pixels.drop_last(), width, height);
        let p = pixels.last();
        if 0 <= p.0.x < width as int && 0 <= p.0.y < height as int {
            rest.push(GxCommand::Poke { x: p.0.x as u16, y: p.0.y as u16, color: p.1 })
        } else {
            rest
        }
    }
}

/// Whether `op` writes the pixel `(x, y)`, executable form of [`covers`].
pub fn op_covers(op: &DrawOp, x: i32, y: i32) -> (b: bool)
    ensures
        b == covers(*op, x as int, y as int),
{
    match op {
        DrawOp::Clear(_) => true,
        DrawOp::FillRect { x0, y0, x1, y1, .. } => {
            *x0 as i32 <= x && x <= *x1 as i32 && *y0 as i32 <= y && y <= *y1 as i32
        },
        DrawOp::Plot { x: px, y: py, .. } => *px as i32 == x && *py as i32 == y,
    }
}

/// The color `op` writes, executable form of [`op_color`].
pub fn op_color_value(op: &DrawOp) -> (c: Color)
    ensures
        c == op_color(*op),
{
    match op {
        DrawOp::Clear(c) => *c,
        DrawOp::FillRect { color, .. } => *color,
        DrawOp::Plot { color, .. } => *color,
    }
}

/// Byte cost of one command, executable form of [`cmd_bytes`].
pub fn cmd_size(c: &GxCommand) -> (n: usize)
    ensures
        n == cmd_bytes(*c),
{
    match c {
        GxCommand::Begin { .. } => 3,
        GxCommand::Position { .. } => 12,
        GxCommand::VertexColor(_) => 4,
        GxCommand::End => 0,
        GxCommand::Poke { .. } => 0,
        _ => 8,
    }
}

} // verus!
