//! The display surface: the immediate-mode draw target.
//!
//! A [`Display`] owns the coprocessor command FIFO (fixed byte capacity,
//! chosen at construction) and caches no pixel state: it is a stateless
//! relay from abstract draw operations to coprocessor commands. `setup`
//! performs the one-time fixed-function pipeline configuration; the
//! draw-target contract (`clear`, `fill_solid`, `plot_pixel`, `draw_iter`)
//! emits immediate-mode packets, clipping every request to the configured
//! surface bounds; `flush` ends the frame and hands the consumed command
//! stream over, together with the copy into the given framebuffer.
//!
//! A write that would exceed the FIFO's capacity is reported as
//! [`DrawError::BufferFull`] and performed not at all — never partially.

use vstd::prelude::*;

use crate::color::Color;
use crate::command::{
    cmd_bytes, cmd_size, end_frame_commands, lemma_stream_bytes_push, op_color_value, op_covers,
    ops_in_bounds, pixel_at, plots_of, pokes_of, quad_packet, stream_bytes, DrawOp, GxCommand,
    VtxAttr, QUAD_PACKET_BYTES,
};
use crate::geometry::{clip, clip_rect, Pixel, Rectangle, Size};
use crate::video::RenderConfig;
use crate::DrawError;

verus! {

/// The default command-FIFO capacity in bytes, large enough for one frame's
/// worth of commands of any workload the engine drives.
pub const DEFAULT_FIFO_SIZE: usize = 256 * 1024;

/// The FIFO bytes the one-time pipeline configuration consumes: 33 state
/// commands of eight bytes each.
pub const SETUP_STREAM_BYTES: usize = 264;

/// The exact command sequence of the one-time pipeline configuration for
/// the display timing `rc`: pixel format and z mode, viewport and copy
/// rectangles matching the configured dimensions, the fixed vertex format
/// (direct position and color, no texture), an orthographic projection
/// mapping screen pixels directly to clip space, standard src-over alpha
/// blending, face culling disabled, and a scissor covering the full
/// surface.
pub open spec fn setup_commands(rc: RenderConfig) -> Seq<GxCommand> {
    let w = rc.framebuffer_width;
    let eh = rc.embed_framebuffer_height;
    let xh = rc.extern_framebuffer_height;
    seq![
        GxCommand::SetCopyClear(Color { r: 0, g: 0, b: 0, a: 0 }),
        GxCommand::SetPixelFormat,
        GxCommand::SetViewport { width: w, height: eh },
        GxCommand::SetDispCopyYScale { embed: eh, external: xh },
        GxCommand::SetDispCopySrc { width: w, height: eh },
        GxCommand::SetDispCopyDst { width: w, height: xh },
        GxCommand::SetCopyFilter { anti_aliasing: rc.anti_aliasing },
        GxCommand::SetFieldMode {
            field_rendering: rc.field_rendering,
            half_aspect: rc.vi_height as int == 2 * xh as int,
        },
        GxCommand::SetDispCopyGamma,
        GxCommand::ClearVtxDesc,
        GxCommand::InvalidateVtxCache,
        GxCommand::InvalidateTexAll,
        GxCommand::SetVtxDesc { attr: VtxAttr::TexCoord0, direct: false },
        GxCommand::SetVtxDesc { attr: VtxAttr::Position, direct: true },
        GxCommand::SetVtxDesc { attr: VtxAttr::Color0, direct: true },
        GxCommand::SetVtxAttrFmt { attr: VtxAttr::Position },
        GxCommand::SetVtxAttrFmt { attr: VtxAttr::TexCoord0 },
        GxCommand::SetVtxAttrFmt { attr: VtxAttr::Color0 },
        GxCommand::SetZMode { enable: true, update: true },
        GxCommand::SetNumChans(1),
        GxCommand::SetNumTexGens(1),
        GxCommand::SetTevOp,
        GxCommand::SetTevOrder,
        GxCommand::LoadPosMtx,
        GxCommand::LoadOrthoProjection { width: w, height: eh },
        GxCommand::SetViewport { width: w, height: eh },
        GxCommand::SetBlendMode,
        GxCommand::SetAlphaUpdate(true),
        GxCommand::SetAlphaCompare,
        GxCommand::SetColorUpdate(true),
        GxCommand::SetCullMode,
        GxCommand::SetClipMode,
        GxCommand::SetScissor { width: w, height: eh },
    ]
}

/// The draw target. It owns the command FIFO; the actual pixel contents
/// live in coprocessor-owned framebuffer memory, not here.
pub struct Display {
    /// The pending command stream of the current frame.
    pub fifo: Vec<GxCommand>,
    /// The pending draw operations of the current frame, the abstract
    /// meaning of `fifo`'s packets, already clipped to the surface.
    pub ops: Vec<DrawOp>,
    /// FIFO bytes consumed by `fifo`.
    pub used: usize,
    /// The FIFO's byte capacity, fixed at construction.
    pub capacity: usize,
    /// Surface width in pixels.
    pub width: u16,
    /// Surface height in pixels.
    pub height: u16,
    /// Whether the one-time pipeline configuration has run.
    pub configured: bool,
}

impl Display {
    /// The display's invariant: the byte accounting matches the pending
    /// stream, the stream fits the capacity, the surface is non-empty, and
    /// every pending operation addresses pixels within the surface bounds.
    pub open spec fn wf(self) -> bool {
        &&& self.used == stream_bytes(self.fifo@)
        &&& self.used <= self.capacity
        &&& self.width > 0 && self.height > 0
        &&& ops_in_bounds(self.ops@, self.width, self.height)
        &&& !self.configured ==> self.ops@.len() == 0
    }

    /// Appends one command to the FIFO, keeping the byte accounting.
    fn push_cmd(&mut self, c: GxCommand)
        requires
            old(self).wf(),
            old(self).used + cmd_bytes(c) <= old(self).capacity,
            old(self).configured,
        ensures
            final(self).wf(),
            final(self).fifo@ == old(self).fifo@.push(c),
            final(self).used == old(self).used + cmd_bytes(c),
            final(self).ops@ == old(self).ops@,
            final(self).capacity == old(self).capacity,
            final(self).width == old(self).width,
            final(self).height == old(self).height,
            final(self).configured == old(self).configured,
    {
        proof {
            lemma_stream_bytes_push(self.fifo@, c);
        }
        let n = cmd_size(&c);
        self.fifo.push(c);
        self.used = self.used + n;
    }

    /// Allocates the command buffer. The surface starts at the standard
    /// 640 x 528 dimensions; `setup` adopts the configured mode's.
    pub fn new(fifo_size: usize) -> (d: Display)
        ensures
            d.wf(),
            !d.configured,
            d.capacity == fifo_size,
            d.used == 0,
            d.fifo@.len() == 0,
            d.ops@.len() == 0,
            d.width == 640,
            d.height == 528,
    {
        Display {
            fifo: Vec::new(),
            ops: Vec::new(),
            used: 0,
            capacity: fifo_size,
            width: 640,
            height: 528,
            configured: false,
        }
    }

    /// One-time pipeline configuration. Must run exactly once, before the
    /// first draw call; it is not safe to call per frame, and the contract
    /// rules a second call out.
    pub fn setup(&mut self, rc: &RenderConfig)
        requires
            old(self).wf(),
            !old(self).configured,
            rc.wf(),
            old(self).used + SETUP_STREAM_BYTES <= old(self).capacity,
        ensures
            final(self).wf(),
            final(self).configured,
            final(self).width == rc.framebuffer_width,
            final(self).height == rc.embed_framebuffer_height,
            final(self).fifo@ == old(self).fifo@ + setup_commands(*rc),
            final(self).ops@ == old(self).ops@,
            final(self).used == old(self).used + SETUP_STREAM_BYTES,
            final(self).capacity == old(self).capacity,
    {
        let w = rc.framebuffer_width;
        let eh = rc.embed_framebuffer_height;
        let xh = rc.extern_framebuffer_height;
        let half_aspect = (rc.vi_height as u32) == 2 * (xh as u32);
        self.width = w;
        self.height = eh;
        self.configured = true;
        self.push_cmd(GxCommand::SetCopyClear(Color { r: 0, g: 0, b: 0, a: 0 }));
        self.push_cmd(GxCommand::SetPixelFormat);
        self.push_cmd(GxCommand::SetViewport { width: w, height: eh });
        self.push_cmd(GxCommand::SetDispCopyYScale { embed: eh, external: xh });
        self.push_cmd(GxCommand::SetDispCopySrc { width: w, height: eh });
        self.push_cmd(GxCommand::SetDispCopyDst { width: w, height: xh });
        self.push_cmd(GxCommand::SetCopyFilter { anti_aliasing: rc.anti_aliasing });
        self.push_cmd(GxCommand::SetFieldMode { field_rendering: rc.field_rendering, half_aspect });
        self.push_cmd(GxCommand::SetDispCopyGamma);
        self.push_cmd(GxCommand::ClearVtxDesc);
        self.push_cmd(GxCommand::InvalidateVtxCache);
        self.push_cmd(GxCommand::InvalidateTexAll);
        self.push_cmd(GxCommand::SetVtxDesc { attr: VtxAttr::TexCoord0, direct: false });
        self.push_cmd(GxCommand::SetVtxDesc { attr: VtxAttr::Position, direct: true });
        self.push_cmd(GxCommand::SetVtxDesc { attr: VtxAttr::Color0, direct: true });
        self.push_cmd(GxCommand::SetVtxAttrFmt { attr: VtxAttr::Position });
        self.push_cmd(GxCommand::SetVtxAttrFmt { attr: VtxAttr::TexCoord0 });
        self.push_cmd(GxCommand::SetVtxAttrFmt { attr: VtxAttr::Color0 });
        self.push_cmd(GxCommand::SetZMode { enable: true, update: true });
        self.push_cmd(GxCommand::SetNumChans(1));
        self.push_cmd(GxCommand::SetNumTexGens(1));
        self.push_cmd(GxCommand::SetTevOp);
        self.push_cmd(GxCommand::SetTevOrder);
        self.push_cmd(GxCommand::LoadPosMtx);
        self.push_cmd(GxCommand::LoadOrthoProjection { width: w, height: eh });
        self.push_cmd(GxCommand::SetViewport { width: w, height: eh });
        self.push_cmd(GxCommand::SetBlendMode);
        self.push_cmd(GxCommand::SetAlphaUpdate(true));
        self.push_cmd(GxCommand::SetAlphaCompare);
        self.push_cmd(GxCommand::SetColorUpdate(true));
        self.push_cmd(GxCommand::SetCullMode);
        self.push_cmd(GxCommand::SetClipMode);
        self.push_cmd(GxCommand::SetScissor { width: w, height: eh });
        proof {
            assert(self.fifo@ =~= old(self).fifo@ + setup_commands(*rc));
        }
    }

    /// Emits one quad packet filling the closed range `[x0, x1] x [y0, y1]`.
    fn emit_quad(&mut self, x0: u16, y0: u16, x1: u16, y1: u16, color: Color)
        requires
            old(self).wf(),
            old(self).configured,
            old(self).used + QUAD_PACKET_BYTES <= old(self).capacity,
        ensures
            final(self).wf(),
            final(self).fifo@ == old(self).fifo@ + quad_packet(x0, y0, x1, y1, color),
            final(self).used == old(self).used + QUAD_PACKET_BYTES,
            final(self).ops@ == old(self).ops@,
            final(self).capacity == old(self).capacity,
            final(self).width == old(self).width,
            final(self).height == old(self).height,
            final(self).configured == old(self).configured,
    {
        self.push_cmd(GxCommand::Begin { count: 4 });
        self.push_cmd(GxCommand::Position { x: x0, y: y0 });
        self.push_cmd(GxCommand::VertexColor(color));
        self.push_cmd(GxCommand::Position { x: x1, y: y0 });
        self.push_cmd(GxCommand::VertexColor(color));
        self.push_cmd(GxCommand::Position { x: x1, y: y1 });
        self.push_cmd(GxCommand::VertexColor(color));
        self.push_cmd(GxCommand::Position { x: x0, y: y1 });
        self.push_cmd(GxCommand::VertexColor(color));
        self.push_cmd(GxCommand::End);
        proof {
            assert(self.fifo@ =~= old(self).fifo@ + quad_packet(x0, y0, x1, y1, color));
        }
    }

    /// Fills the entire surface with `color`, superseding any draws issued
    /// before it in the same frame but none issued after it. Fails with
    /// `BufferFull`, changing nothing, exactly when the packet would not
    /// fit the FIFO.
    pub fn clear(&mut self, color: Color) -> (r: Result<(), DrawError>)
        requires
            old(self).wf(),
            old(self).configured,
        ensures
            final(self).wf(),
            final(self).configured,
            final(self).width == old(self).width,
            final(self).height == old(self).height,
            final(self).capacity == old(self).capacity,
            r matches Ok(_) <==> old(self).used + QUAD_PACKET_BYTES <= old(self).capacity,
            r matches Ok(_) ==> {
                &&& final(self).ops@ == old(self).ops@.push(DrawOp::Clear(color))
                &&& final(self).fifo@ == old(self).fifo@ + quad_packet(
                    0,
                    0,
                    (old(self).width - 1) as u16,
                    (old(self).height - 1) as u16,
                    color,
                )
                &&& final(self).used == old(self).used + QUAD_PACKET_BYTES
            },
            r matches Err(e) ==> e == DrawError::BufferFull && *final(self) == *old(self),
    {
        if QUAD_PACKET_BYTES <= self.capacity - self.used {
            let x1 = self.width - 1;
            let y1 = self.height - 1;
            self.emit_quad(0, 0, x1, y1, color);
            self.ops.push(DrawOp::Clear(color));
            Ok(())
        } else {
            Err(DrawError::BufferFull)
        }
    }

    /// Fills one rectangle with a flat color: one quad covering the clipped
    /// rectangle's corners. Every pixel whose center lies within the closed
    /// rectangle and on the surface is set to `color`; pixels outside the
    /// surface bounds are dropped, not wrapped or clamped into range. A
    /// rectangle that misses the surface entirely draws nothing and
    /// succeeds; `BufferFull` is returned, changing nothing, exactly when a
    /// packet is due and would not fit the FIFO.
    pub fn fill_solid(&mut self, area: &Rectangle, color: Color) -> (r: Result<(), DrawError>)
        requires
            old(self).wf(),
            old(self).configured,
        ensures
            final(self).wf(),
            final(self).configured,
            final(self).width == old(self).width,
            final(self).height == old(self).height,
            final(self).capacity == old(self).capacity,
            ({
                match clip_rect(*area, old(self).width, old(self).height) {
                    None => r matches Ok(_) && *final(self) == *old(self),
                    Some((x0, y0, x1, y1)) => {
                        if old(self).used + QUAD_PACKET_BYTES <= old(self).capacity {
                            &&& r matches Ok(_)
                            &&& final(self).ops@ == old(self).ops@.push(
                                (DrawOp::FillRect {
                                    x0: x0 as u16,
                                    y0: y0 as u16,
                                    x1: x1 as u16,
                                    y1: y1 as u16,
                                    color,
                                }),
                            )
                            &&& final(self).fifo@ == old(self).fifo@ + quad_packet(
                                x0 as u16,
                                y0 as u16,
                                x1 as u16,
                                y1 as u16,
                                color,
                            )
                            &&& final(self).used == old(self).used + QUAD_PACKET_BYTES
                        } else {
                            &&& r matches Err(e) && e == DrawError::BufferFull
                            &&& *final(self) == *old(self)
                        }
                    },
                }
            }),
    {
        match clip(area, self.width, self.height) {
            None => Ok(()),
            Some((x0, y0, x1, y1)) => {
                if QUAD_PACKET_BYTES <= self.capacity - self.used {
                    self.emit_quad(x0, y0, x1, y1, color);
                    self.ops.push(DrawOp::FillRect { x0, y0, x1, y1, color });
                    Ok(())
                } else {
                    Err(DrawError::BufferFull)
                }
            },
        }
    }

    /// Writes a single pixel. Valid only for `0 <= x < width` and
    /// `0 <= y < height`; out-of-range coordinates are silently ignored —
    /// the surface is left unmodified, with no error and no panic. This is
    /// the clipping policy, not a failure. The write bypasses the FIFO, so
    /// it cannot exhaust it.
    pub fn plot_pixel(&mut self, x: i32, y: i32, color: Color)
        requires
            old(self).wf(),
            old(self).configured,
        ensures
            final(self).wf(),
            final(self).configured,
            final(self).width == old(self).width,
            final(self).height == old(self).height,
            final(self).capacity == old(self).capacity,
            final(self).used == old(self).used,
            (0 <= x < old(self).width && 0 <= y < old(self).height) ==> {
                &&& final(self).ops@ == old(self).ops@.push(
                    (DrawOp::Plot { x: x as u16, y: y as u16, color }),
                )
                &&& final(self).fifo@ == old(self).fifo@.push(
                    (GxCommand::Poke { x: x as u16, y: y as u16, color }),
                )
            },
            !(0 <= x < old(self).width && 0 <= y < old(self).height) ==> *final(self) == *old(
                self,
            ),
    {
        if x >= 0 && y >= 0 && x < self.width as i32 && y < self.height as i32 {
            self.push_cmd(GxCommand::Poke { x: x as u16, y: y as u16, color });
            self.ops.push(DrawOp::Plot { x: x as u16, y: y as u16, color });
        }
    }

    /// Plots a batch of pixels: each in-bounds pixel is written, in batch
    /// order; out-of-bounds pixels are silently dropped.
    pub fn draw_iter(&mut self, pixels: &Vec<Pixel>)
        requires
            old(self).wf(),
            old(self).configured,
        ensures
            final(self).wf(),
            final(self).configured,
            final(self).width == old(self).width,
            final(self).height == old(self).height,
            final(self).capacity == old(self).capacity,
            final(self).used == old(self).used,
            final(self).ops@ == old(self).ops@ + plots_of(
                pixels@,
                old(self).width,
                old(self).height,
            ),
            final(self).fifo@ == old(self).fifo@ + pokes_of(
                pixels@,
                old(self).width,
                old(self).height,
            ),
    {
        let w = self.width;
        let h = self.height;
        let mut i: usize = 0;
        while i < pixels.len()
            invariant
                i <= pixels.len(),
                self.wf(),
                self.configured,
                self.width == w,
                self.height == h,
                w == old(self).width,
                h == old(self).height,
                self.capacity == old(self).capacity,
                self.used == old(self).used,
                self.ops@ == old(self).ops@ + plots_of(pixels@.take(i as int), w, h),
                self.fifo@ == old(self).fifo@ + pokes_of(pixels@.take(i as int), w, h),
            decreases pixels.len() - i,
        {
            let p = pixels[i];
            self.plot_pixel(p.0.x, p.0.y, p.1);
            proof {
                assert(pixels@.take(i + 1 as int).drop_last() =~= pixels@.take(i as int));
                assert(pixels@.take(i + 1 as int).last() == pixels@[i as int]);
            }
            i = i + 1;
        }
        proof {
            assert(pixels@.take(pixels@.len() as int) =~= pixels@);
        }
    }

    /// Resets the viewport to the full surface, as the engine's per-frame
    /// loop does before each frame's drawing begins.
    pub fn set_viewport(&mut self, width: u16, height: u16)
        requires
            old(self).wf(),
            old(self).configured,
            old(self).used + 8 <= old(self).capacity,
        ensures
            final(self).wf(),
            final(self).configured,
            final(self).width == old(self).width,
            final(self).height == old(self).height,
            final(self).capacity == old(self).capacity,
            final(self).used == old(self).used + 8,
            final(self).fifo@ == old(self).fifo@.push((GxCommand::SetViewport { width, height })),
            final(self).ops@ == old(self).ops@,
    {
        self.push_cmd(GxCommand::SetViewport { width, height });
    }

    /// Ends the frame: waits for all queued commands to finish, sets the
    /// final z mode, and copies the render target into framebuffer
    /// `framebuffer`. The consumed command stream — everything queued this
    /// frame, ended by the copy — is handed back; the FIFO and the pending
    /// operations empty for the next frame.
    pub fn flush(&mut self, framebuffer: u8) -> (frame: Vec<GxCommand>)
        requires
            old(self).wf(),
            old(self).configured,
        ensures
            final(self).wf(),
            final(self).configured,
            final(self).width == old(self).width,
            final(self).height == old(self).height,
            final(self).capacity == old(self).capacity,
            final(self).used == 0,
            final(self).fifo@.len() == 0,
            final(self).ops@.len() == 0,
            frame@ == old(self).fifo@ + end_frame_commands(framebuffer),
    {
        let mut frame: Vec<GxCommand> = Vec::new();
        core::mem::swap(&mut frame, &mut self.fifo);
        frame.push(GxCommand::DrawDone);
        frame.push(GxCommand::SetZMode { enable: true, update: true });
        frame.push(GxCommand::CopyDisplay { buffer: framebuffer });
        self.ops.clear();
        self.used = 0;
        proof {
            assert(frame@ =~= old(self).fifo@ + end_frame_commands(framebuffer));
        }
        frame
    }

    /// The surface dimensions.
    pub fn size(&self) -> (s: Size)
        ensures
            s.width == self.width as u32,
            s.height == self.height as u32,
    {
        Size { width: self.width as u32, height: self.height as u32 }
    }

    /// Whether the one-time pipeline configuration has run.
    pub fn is_configured(&self) -> (b: bool)
        ensures
            b == self.configured,
    {
        self.configured
    }

    /// The FIFO's byte capacity.
    pub fn fifo_capacity(&self) -> (n: usize)
        ensures
            n == self.capacity,
    {
        self.capacity
    }

    /// FIFO bytes consumed by the pending command stream.
    pub fn used_bytes(&self) -> (n: usize)
        ensures
            n == self.used,
    {
        self.used
    }

    /// Number of pending commands.
    pub fn command_count(&self) -> (n: usize)
        ensures
            n == self.fifo@.len(),
    {
        self.fifo.len()
    }

    /// The pending command at index `i`.
    pub fn command_at(&self, i: usize) -> (c: GxCommand)
        requires
            i < self.fifo@.len(),
        ensures
            c == self.fifo@[i as int],
    {
        self.fifo[i]
    }

    /// Number of pending draw operations.
    pub fn op_count(&self) -> (n: usize)
        ensures
            n == self.ops@.len(),
    {
        self.ops.len()
    }

    /// The pending draw operation at index `i`.
    pub fn op_at(&self, i: usize) -> (op: DrawOp)
        requires
            i < self.ops@.len(),
        ensures
            op == self.ops@[i as int],
    {
        self.ops[i]
    }

    /// The color pixel `(x, y)` will show once the pending operations
    /// execute over a surface that showed `base` there: the last pending
    /// operation covering the pixel wins; a pixel none covers keeps `base`.
    pub fn resolve_pixel(&self, x: i32, y: i32, base: Color) -> (c: Color)
        ensures
            c == pixel_at(self.ops@, x as int, y as int, base),
    {
        let mut i: usize = self.ops.len();
        proof {
            assert(self.ops@.take(i as int) =~= self.ops@);
        }
        while i > 0
            invariant
                i <= self.ops@.len(),
                pixel_at(self.ops@, x as int, y as int, base) == pixel_at(
                    self.ops@.take(i as int),
                    x as int,
                    y as int,
                    base,
                ),
            decreases i,
        {
            i = i - 1;
            let op = self.ops[i];
            proof {
                assert(self.ops@.take(i + 1 as int).drop_last() =~= self.ops@.take(i as int));
                assert(self.ops@.take(i + 1 as int).last() == op);
            }
            if op_covers(&op, x, y) {
                return op_color_value(&op);
            }
        }
        base
    }
}

} // verus!
