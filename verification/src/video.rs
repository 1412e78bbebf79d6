//! The video subsystem: display timing configuration and the
//! double-buffered framebuffer swap discipline.
//!
//! The subsystem owns two framebuffer memory regions, here named `0` and
//! `1`. Publishing a buffer as "next" is asynchronous: `set_next_framebuffer`
//! stages it, `flush` commits the staged registers to the hardware, and only
//! the vertical-blank interrupt — `wait_vsync` — makes the committed buffer
//! the one the display scans. That boundary is what prevents tearing: a
//! buffer published during a frame's draw phase is never read by the display
//! before the vertical blank that follows.

use vstd::prelude::*;

verus! {

/// The display timing descriptor: framebuffer width, embedded and external
/// framebuffer heights, display height, interlace/field-rendering flags,
/// anti-aliasing sample pattern and vertical-filter taps.
#[derive(Clone, Copy, Debug)]
pub struct RenderConfig {
    pub framebuffer_width: u16,
    pub embed_framebuffer_height: u16,
    pub extern_framebuffer_height: u16,
    pub vi_height: u16,
    pub anti_aliasing: u8,
    pub field_rendering: u8,
    pub sample_pattern: [[u8; 2]; 12],
    pub v_filter: [u8; 7],
}

impl RenderConfig {
    /// Internal consistency: the surface is non-empty and the embedded
    /// framebuffer height never exceeds the external one.
    pub open spec fn wf(self) -> bool {
        &&& self.framebuffer_width > 0
        &&& 0 < self.embed_framebuffer_height <= self.extern_framebuffer_height
    }
}

/// The owning handle of the video subsystem. Exactly one instance exists
/// for a run's duration; it is mutated only by the swap discipline and by
/// mode configuration at startup.
pub struct Video {
    /// The active display timing configuration.
    pub render_config: RenderConfig,
    /// The back framebuffer, the one the display surface copies a finished
    /// frame into.
    pub framebuffer: u8,
    /// The buffer staged by `set_next_framebuffer`, not yet committed.
    pub pending_next: u8,
    /// The buffer committed by `flush`; becomes visible at the next
    /// vertical blank.
    pub latched_next: u8,
    /// The buffer the display hardware scans. Changes only at a vertical
    /// blank.
    pub displayed: u8,
    /// Whether video output is blanked.
    pub black: bool,
}

/// [`Video::set_next_framebuffer`] as a transition on the model state:
/// staging a buffer changes nothing the display reads.
pub open spec fn spec_set_next_framebuffer(v: Video, framebuffer: u8) -> Video {
    Video { pending_next: framebuffer, ..v }
}

/// [`Video::flush`] as a transition: the staged buffer is committed to the
/// hardware registers, still without changing what the display scans.
pub open spec fn spec_flush(v: Video) -> Video {
    Video { latched_next: v.pending_next, ..v }
}

/// [`Video::wait_vsync`] as a transition: at the vertical blank, and only
/// there, the committed buffer becomes the displayed one.
pub open spec fn spec_wait_vsync(v: Video) -> Video {
    Video { displayed: v.latched_next, ..v }
}

impl Video {
    /// Every buffer index names one of the two framebuffers.
    pub open spec fn wf(self) -> bool {
        &&& self.framebuffer < 2
        &&& self.pending_next < 2
        &&& self.latched_next < 2
        &&& self.displayed < 2
        &&& self.render_config.wf()
    }

    /// Brings up the video subsystem with the detected display mode:
    /// both framebuffers allocated, buffer 0 staged, committed and
    /// displayed, output blanked until the caller reveals it.
    pub fn init(render_config: RenderConfig) -> (v: Video)
        requires
            render_config.wf(),
        ensures
            v.wf(),
            v.render_config == render_config,
            v.framebuffer == 0,
            v.pending_next == 0,
            v.latched_next == 0,
            v.displayed == 0,
            v.black,
    {
        Video {
            render_config,
            framebuffer: 0,
            pending_next: 0,
            latched_next: 0,
            displayed: 0,
            black: true,
        }
    }

    /// The display mode the hardware prefers. This model supports the one
    /// standard progressive mode: a 640 x 528 surface, no anti-aliasing,
    /// with the standard vertical filter taps.
    pub fn get_preferred_mode() -> (rc: RenderConfig)
        ensures
            rc.wf(),
            rc.framebuffer_width == 640,
            rc.embed_framebuffer_height == 528,
            rc.extern_framebuffer_height == 528,
            rc.vi_height == 528,
            rc.anti_aliasing == 0,
            rc.field_rendering == 0,
    {
        RenderConfig {
            framebuffer_width: 640,
            embed_framebuffer_height: 528,
            extern_framebuffer_height: 528,
            vi_height: 528,
            anti_aliasing: 0,
            field_rendering: 0,
            sample_pattern: [[6, 6]; 12],
            v_filter: [0, 0, 21, 22, 21, 0, 0],
        }
    }

    /// Applies a display timing configuration. Asynchronous on hardware:
    /// the caller must `flush` and `wait_vsync` before relying on it.
    pub fn configure(&mut self, render_config: RenderConfig)
        requires
            render_config.wf(),
        ensures
            *final(self) == (Video { render_config, ..*old(self) }),
    {
        self.render_config = render_config;
    }

    /// Stages `framebuffer` as the one to become visible at the next
    /// vertical blank. What the display scans is unchanged.
    pub fn set_next_framebuffer(&mut self, framebuffer: u8)
        requires
            framebuffer < 2,
        ensures
            *final(self) == spec_set_next_framebuffer(*old(self), framebuffer),
    {
        self.pending_next = framebuffer;
    }

    /// Blanks or unblanks video output.
    pub fn set_black(&mut self, black: bool)
        ensures
            *final(self) == (Video { black, ..*old(self) }),
    {
        self.black = black;
    }

    /// Commits staged register changes to the hardware. What the display
    /// scans is still unchanged: the committed buffer takes effect only at
    /// the next vertical blank.
    pub fn flush(&mut self)
        ensures
            *final(self) == spec_flush(*old(self)),
    {
        self.latched_next = self.pending_next;
    }

    /// Suspends until the next vertical-blank interrupt. This is the sole
    /// blocking point of the system; at the blank, the committed buffer
    /// becomes the displayed one, never mid-scan.
    pub fn wait_vsync(&mut self)
        ensures
            *final(self) == spec_wait_vsync(*old(self)),
    {
        self.displayed = self.latched_next;
    }

    /// Swaps which buffer is the back one drawn into next frame.
    pub fn flip_framebuffer(&mut self)
        requires
            old(self).framebuffer < 2,
        ensures
            *final(self) == (Video { framebuffer: (1 - old(self).framebuffer) as u8, ..*old(self) }),
    {
        self.framebuffer = 1 - self.framebuffer;
    }
}

/// Double-buffer non-tearing: a buffer published as "next" during a frame's
/// draw phase is not read by the display hardware when it is staged, nor
/// when it is committed; it becomes the displayed buffer exactly at the
/// vertical-blank boundary that follows the frame's flush.
pub proof fn lemma_non_tearing(v: Video, framebuffer: u8)
    requires
        v.wf(),
        framebuffer < 2,
    ensures
        ({
            let published = spec_flush(spec_set_next_framebuffer(v, framebuffer));
            &&& spec_set_next_framebuffer(v, framebuffer).displayed == v.displayed
            &&& published.displayed == v.displayed
            &&& spec_wait_vsync(published).displayed == framebuffer
        }),
{
}

} // verus!
