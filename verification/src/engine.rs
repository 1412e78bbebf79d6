//! The engine orchestrator and the lifecycle contract.
//!
//! [`State`] is the capability interface the host application implements:
//! three independently optional hooks (`init`, `update`, `draw`), each with
//! a safe no-op default. [`Engine::run`] composes the subsystems: it
//! performs the one-time bring-up in a fixed order, then drives the
//! per-frame lifecycle — input scan, `update`, `draw`, flush, publish
//! framebuffer, wait for the vertical blank, flip — for the requested
//! number of frames, recording every step in a log whose exact shape the
//! contract pins to [`frame_trace`].

use vstd::prelude::*;

use crate::display::{Display, DEFAULT_FIFO_SIZE, SETUP_STREAM_BYTES};
use crate::video::Video;
use crate::DrawError;

verus! {

/// One step of the engine's operation, as the run log records it.
#[derive(Clone, Copy, Debug, PartialEq, Eq, Structural)]
pub enum FrameEvent {
    /// Hardware bring-up finished: video configured, initial framebuffer
    /// published and visible, display pipeline set up.
    EngineInit,
    /// The lifecycle's one-time initialization hook ran.
    StateInit,
    /// Input devices were sampled for frame `frame`, before its `update`.
    InputScan { frame: usize },
    /// `update` for frame `frame` completed.
    Update { frame: usize },
    /// `draw` for frame `frame` completed.
    Draw { frame: usize },
    /// Frame `frame` was flushed into the back framebuffer.
    Flush { frame: usize },
    /// The back framebuffer was published as "next" for frame `frame`.
    Publish { frame: usize },
    /// The vertical blank after frame `frame` arrived; the published
    /// buffer became the displayed one.
    WaitVsync { frame: usize },
    /// The framebuffers swapped roles after frame `frame`.
    Flip { frame: usize },
}

/// The seven per-frame lifecycle steps of frame `k`, in their fixed order.
pub open spec fn frame_events(k: usize) -> Seq<FrameEvent> {
    seq![
        FrameEvent::InputScan { frame: k },
        FrameEvent::Update { frame: k },
        FrameEvent::Draw { frame: k },
        FrameEvent::Flush { frame: k },
        FrameEvent::Publish { frame: k },
        FrameEvent::WaitVsync { frame: k },
        FrameEvent::Flip { frame: k },
    ]
}

/// The complete event trace of a run of `n` frames: bring-up, the one-time
/// initialization hook, then each frame's seven steps in order.
pub open spec fn frame_trace(n: usize) -> Seq<FrameEvent>
    decreases n,
{
    if n == 0 {
        seq![FrameEvent::EngineInit, FrameEvent::StateInit]
    } else {
        frame_trace((n - 1) as usize) + frame_events((n - 1) as usize)
    }
}

pub proof fn lemma_frame_trace_len(n: usize)
    ensures
        frame_trace(n).len() == 2 + 7 * n,
    decreases n,
{
    if n > 0 {
        lemma_frame_trace_len((n - 1) as usize);
    }
}

/// Each step of frame `k` sits at its fixed place in every longer trace:
/// position `2 + 7k + j` of `frame_trace(n)` is step `j` of frame `k`.
pub proof fn lemma_trace_event(n: usize, k: usize, j: int)
    requires
        k < n,
        0 <= j < 7,
    ensures
        frame_trace(n).len() == 2 + 7 * n,
        frame_trace(n)[2 + 7 * k + j] == frame_events(k)[j],
    decreases n,
{
    lemma_frame_trace_len(n);
    if k + 1 == n {
        lemma_frame_trace_len(k);
    } else {
        lemma_trace_event((n - 1) as usize, k, j);
    }
}

/// Lifecycle ordering: in the trace of any run of `n` frames, `update` for
/// frame `k` completes before `draw` for frame `k` begins, and `draw` for
/// frame `k` completes before `update` for frame `k + 1` begins — no
/// reordering, no overlap.
pub proof fn lemma_lifecycle_order(n: usize, k: usize)
    requires
        k < n,
    ensures
        frame_trace(n).len() == 2 + 7 * n,
        frame_trace(n)[2 + 7 * k + 1] == (FrameEvent::Update { frame: k }),
        frame_trace(n)[2 + 7 * k + 2] == (FrameEvent::Draw { frame: k }),
        2 + 7 * k + 1 < 2 + 7 * k + 2,
        k + 1 < n ==> frame_trace(n)[2 + 7 * (k + 1) + 1] == (FrameEvent::Update {
            frame: (k + 1) as usize,
        }) && 2 + 7 * k + 2 < 2 + 7 * (k + 1) + 1,
{
    lemma_trace_event(n, k, 1);
    lemma_trace_event(n, k, 2);
    if k + 1 < n {
        lemma_trace_event(n, (k + 1) as usize, 1);
    }
}

/// The lifecycle contract: host-supplied behavior with three independently
/// optional hooks, each defaulting to a no-op. Implement only what you
/// need.
pub trait State: Sized {
    /// One-time initialization, called once before the first frame.
    fn init() {
    }

    /// Per-frame state advance, called once per frame before `draw`. Reads
    /// input sampled earlier in the frame; must not perform drawing. The
    /// default does nothing at all.
    fn update(&mut self)
        default_ensures
            *final(self) == *old(self),
    {
    }

    /// Per-frame drawing, called once per frame after `update`. Issues
    /// drawing calls against the display; whatever it does, the display
    /// stays well-formed, configured, and of unchanged dimensions and
    /// capacity. The default draws nothing and cannot fail.
    fn draw(&self, display: &mut Display) -> (r: Result<(), DrawError>)
        requires
            old(display).wf(),
            old(display).configured,
        ensures
            final(display).wf(),
            final(display).configured,
            final(display).width == old(display).width,
            final(display).height == old(display).height,
            final(display).capacity == old(display).capacity,
        default_ensures
            r matches Ok(_),
            *final(display) == *old(display),
    {
        Ok(())
    }
}

/// The smallest command FIFO the engine can run with: room for the one-time
/// pipeline configuration and the per-frame viewport reset. Drawing beyond
/// what the capacity holds is reported per call as `BufferFull`.
pub const MIN_FIFO_SIZE: usize = SETUP_STREAM_BYTES + 8;

/// The engine's configuration surface. Every option has a default; a host
/// overrides only what it needs.
#[derive(Clone, Copy, Debug, PartialEq, Eq, Structural)]
pub struct EngineConfig {
    /// The display's command-FIFO capacity in bytes.
    pub display_fifo_size: usize,
}

impl EngineConfig {
    /// The default configuration: the standard command-FIFO capacity.
    pub fn new() -> (c: EngineConfig)
        ensures
            c.display_fifo_size == DEFAULT_FIFO_SIZE,
            c.display_fifo_size >= MIN_FIFO_SIZE,
    {
        EngineConfig { display_fifo_size: DEFAULT_FIFO_SIZE }
    }

    /// Overrides the default command-FIFO capacity. The capacity must at
    /// least hold the pipeline configuration and a frame's viewport reset.
    pub fn display_fifo_size(self, display_fifo_size: usize) -> (c: EngineConfig)
        requires
            display_fifo_size >= MIN_FIFO_SIZE,
        ensures
            c == (EngineConfig { display_fifo_size }),
    {
        EngineConfig { display_fifo_size }
    }
}

/// Game engine abstraction: owns the composition of the subsystems and
/// enforces the call ordering.
pub struct Engine;

/// What a finished run hands back: the lifecycle state (owned by the
/// engine for the run's duration), the video and display handles as the
/// run left them, the event log, and whether every frame's `draw`
/// succeeded.
pub struct EngineRun<T> {
    pub state: T,
    pub video: Video,
    pub display: Display,
    pub log: Vec<FrameEvent>,
    pub result: Result<(), DrawError>,
}

impl Engine {
    /// Runs the lifecycle with the default configuration; see [`Engine::run_with`].
    pub fn run<T: State>(state: T, frames: usize) -> (r: EngineRun<T>)
        ensures
            r.display.capacity == DEFAULT_FIFO_SIZE,
            r.video.wf(),
            r.display.wf(),
            r.display.configured,
            r.result matches Ok(_) ==> {
                &&& r.log@ == frame_trace(frames)
                &&& r.video.framebuffer == frames % 2
                &&& r.video.displayed == (if frames == 0 {
                    0int
                } else {
                    (frames - 1) % 2
                })
                &&& !r.video.black
                &&& frames > 0 ==> r.display.fifo@.len() == 0 && r.display.ops@.len() == 0
            },
            r.result matches Err(e) ==> e == DrawError::BufferFull && (exists|k: usize|
                k < frames && r.log@ == frame_trace(k) + seq![
                    (FrameEvent::InputScan { frame: k }),
                    (FrameEvent::Update { frame: k }),
                ]),
    {
        Engine::run_with(state, EngineConfig::new(), frames)
    }

    /// Brings the hardware up in the fixed order — video mode, initial
    /// framebuffer published and made visible across one vertical blank,
    /// display pipeline setup, the lifecycle's one-time hook — then runs
    /// `frames` frames of the lifecycle loop.
    ///
    /// On success the log is exactly `frame_trace(frames)`: every frame's
    /// `update` completed before its `draw`, every frame was flushed before
    /// its framebuffer was published, and every publish was committed at a
    /// vertical blank before the buffers flipped. A `draw` failure stops
    /// the run at that frame with its error and a log that ends right
    /// after the failing frame's `update` step.
    pub fn run_with<T: State>(state: T, config: EngineConfig, frames: usize) -> (r: EngineRun<T>)
        requires
            config.display_fifo_size >= MIN_FIFO_SIZE,
        ensures
            r.display.capacity == config.display_fifo_size,
            r.video.wf(),
            r.display.wf(),
            r.display.configured,
            r.result matches Ok(_) ==> {
                &&& r.log@ == frame_trace(frames)
                &&& r.video.framebuffer == frames % 2
                &&& r.video.displayed == (if frames == 0 {
                    0int
                } else {
                    (frames - 1) % 2
                })
                &&& !r.video.black
                &&& frames > 0 ==> r.display.fifo@.len() == 0 && r.display.ops@.len() == 0
            },
            r.result matches Err(e) ==> e == DrawError::BufferFull && (exists|k: usize|
                k < frames && r.log@ == frame_trace(k) + seq![
                    (FrameEvent::InputScan { frame: k }),
                    (FrameEvent::Update { frame: k }),
                ]),
    {
        let mode = Video::get_preferred_mode();
        let mut video = Video::init(mode);
        video.configure(mode);
        let initial = video.framebuffer;
        video.set_next_framebuffer(initial);
        video.set_black(false);
        video.flush();
        video.wait_vsync();

        let mut display = Display::new(config.display_fifo_size);
        display.setup(&video.render_config);

        let fb_width = video.render_config.framebuffer_width;
        let emb_height = video.render_config.embed_framebuffer_height;

        let mut log: Vec<FrameEvent> = Vec::new();
        log.push(FrameEvent::EngineInit);
        T::init();
        log.push(FrameEvent::StateInit);
        proof {
            assert(log@ =~= frame_trace(0));
        }

        let mut state = state;
        let mut k: usize = 0;
        while k < frames
            invariant
                k <= frames,
                log@ == frame_trace(k),
                display.wf(),
                display.configured,
                display.capacity == config.display_fifo_size,
                display.capacity >= MIN_FIFO_SIZE,
                display.width == fb_width,
                display.height == emb_height,
                k == 0 ==> display.used == SETUP_STREAM_BYTES,
                k > 0 ==> display.used == 0 && display.fifo@.len() == 0 && display.ops@.len()
                    == 0,
                video.wf(),
                !video.black,
                video.framebuffer == k % 2,
                video.displayed == (if k == 0 {
                    0int
                } else {
                    (k - 1) % 2
                }),
            decreases frames - k,
        {
            display.set_viewport(fb_width, emb_height);
            // Input sampling happens here, before any per-frame reads.
            log.push(FrameEvent::InputScan { frame: k });

            state.update();
            log.push(FrameEvent::Update { frame: k });

            match state.draw(&mut display) {
                Ok(_) => {},
                Err(e) => {
                    proof {
                        assert(log@ =~= frame_trace(k) + seq![
                            (FrameEvent::InputScan { frame: k }),
                            (FrameEvent::Update { frame: k }),
                        ]);
                    }
                    return EngineRun { state, video, display, log, result: Err(e) };
                },
            }
            log.push(FrameEvent::Draw { frame: k });

            let back = video.framebuffer;
            let _frame_stream = display.flush(back);
            log.push(FrameEvent::Flush { frame: k });

            video.set_next_framebuffer(back);
            log.push(FrameEvent::Publish { frame: k });

            video.flush();
            video.wait_vsync();
            log.push(FrameEvent::WaitVsync { frame: k });

            video.flip_framebuffer();
            log.push(FrameEvent::Flip { frame: k });

            proof {
                assert(log@ =~= frame_trace(k) + frame_events(k));
            }
            k = k + 1;
        }
        EngineRun { state, video, display, log, result: Ok(()) }
    }
}

} // verus!
