use std::cell::RefCell;

use ogc_engine::color::Color;
use ogc_engine::display::{Display, DEFAULT_FIFO_SIZE};
use ogc_engine::engine::{Engine, EngineConfig, FrameEvent, State, MIN_FIFO_SIZE};
use ogc_engine::geometry::{Point, Rectangle, Size};
use ogc_engine::DrawError;

/// Overrides nothing: every hook keeps its no-op default.
struct Silent;

impl State for Silent {}

/// Counts updates, and records at each draw how many updates had completed.
struct Recorder {
    updates: usize,
    seen_at_draw: RefCell<Vec<usize>>,
}

impl State for Recorder {
    fn update(&mut self) {
        self.updates += 1;
    }

    fn draw(&self, _display: &mut Display) -> Result<(), DrawError> {
        self.seen_at_draw.borrow_mut().push(self.updates);
        Ok(())
    }
}

/// Draws a rectangle each frame, moving with the frame counter.
struct Mover {
    frame: i32,
}

impl State for Mover {
    fn update(&mut self) {
        self.frame += 1;
    }

    fn draw(&self, display: &mut Display) -> Result<(), DrawError> {
        display.clear(Color::rgb(0, 255, 255))?;
        let area = Rectangle::new(Point::new(self.frame, self.frame), Size::new(8, 8));
        display.fill_solid(&area, Color::rgb(255, 255, 255))?;
        Ok(())
    }
}

/// Fails on the third frame's draw.
struct FailsThird {
    frame: usize,
}

impl State for FailsThird {
    fn update(&mut self) {
        self.frame += 1;
    }

    fn draw(&self, _display: &mut Display) -> Result<(), DrawError> {
        if self.frame >= 3 {
            Err(DrawError::BufferFull)
        } else {
            Ok(())
        }
    }
}

fn expected_trace(frames: usize) -> Vec<FrameEvent> {
    let mut log = vec![FrameEvent::EngineInit, FrameEvent::StateInit];
    for frame in 0..frames {
        log.push(FrameEvent::InputScan { frame });
        log.push(FrameEvent::Update { frame });
        log.push(FrameEvent::Draw { frame });
        log.push(FrameEvent::Flush { frame });
        log.push(FrameEvent::Publish { frame });
        log.push(FrameEvent::WaitVsync { frame });
        log.push(FrameEvent::Flip { frame });
    }
    log
}

#[test]
fn run_logs_the_exact_lifecycle_trace() {
    let outcome = Engine::run(Silent, 3);
    assert_eq!(outcome.result, Ok(()));
    assert_eq!(outcome.log, expected_trace(3));
}

#[test]
fn run_zero_frames_only_brings_up() {
    let outcome = Engine::run(Silent, 0);
    assert_eq!(outcome.result, Ok(()));
    assert_eq!(outcome.log, expected_trace(0));
    assert!(outcome.display.is_configured());
    // Bring-up published buffer 0 and made it visible across one vertical
    // blank.
    assert_eq!(outcome.video.displayed, 0);
    assert_eq!(outcome.video.framebuffer, 0);
    assert!(!outcome.video.black);
}

#[test]
fn update_completes_before_draw_every_frame() {
    // update for frame k completes before draw for frame k, and draw for
    // frame k completes before update for frame k + 1: each draw sees
    // exactly k + 1 completed updates.
    let recorder = Recorder { updates: 0, seen_at_draw: RefCell::new(Vec::new()) };
    let outcome = Engine::run(recorder, 5);
    assert_eq!(outcome.result, Ok(()));
    assert_eq!(outcome.state.updates, 5);
    assert_eq!(outcome.state.seen_at_draw.into_inner(), vec![1, 2, 3, 4, 5]);
    // The log shows the same ordering.
    for k in 0..5usize {
        let base = 2 + 7 * k;
        assert_eq!(outcome.log[base + 1], FrameEvent::Update { frame: k });
        assert_eq!(outcome.log[base + 2], FrameEvent::Draw { frame: k });
    }
}

#[test]
fn buffers_alternate_across_frames() {
    // Frame k draws into buffer k % 2, publishes it, and the vertical blank
    // makes it the displayed one before the buffers flip.
    let outcome = Engine::run(Silent, 4);
    assert_eq!(outcome.result, Ok(()));
    assert_eq!(outcome.video.framebuffer, 0);
    assert_eq!(outcome.video.displayed, 1);
    let outcome = Engine::run(Silent, 5);
    assert_eq!(outcome.result, Ok(()));
    assert_eq!(outcome.video.framebuffer, 1);
    assert_eq!(outcome.video.displayed, 0);
}

#[test]
fn noop_defaults_draw_nothing() {
    // A lifecycle implementation that overrides nothing leaves the surface
    // exactly as the display's default state put it, however many frames
    // run: no draw operation is ever issued.
    let mut display = Display::new(ogc_engine::display::DEFAULT_FIFO_SIZE);
    let mode = ogc_engine::video::Video::get_preferred_mode();
    display.setup(&mode);
    let silent = Silent;
    let base = Color::new(3, 4, 5, 6);
    for _ in 0..10 {
        let r = silent.draw(&mut display);
        assert_eq!(r, Ok(()));
        assert_eq!(display.op_count(), 0);
        assert_eq!(display.resolve_pixel(17, 23, base), base);
        display.flush(0);
    }
    // The same holds through the engine loop.
    let outcome = Engine::run(Silent, 10);
    assert_eq!(outcome.result, Ok(()));
    assert_eq!(outcome.display.op_count(), 0);
}

#[test]
fn drawing_state_reaches_the_display() {
    let outcome = Engine::run(Mover { frame: 0 }, 2);
    assert_eq!(outcome.result, Ok(()));
    assert_eq!(outcome.state.frame, 2);
    // Every frame was flushed: nothing stays pending.
    assert_eq!(outcome.display.op_count(), 0);
    assert_eq!(outcome.display.command_count(), 0);
}

#[test]
fn config_defaults_and_override() {
    let config = EngineConfig::new();
    assert_eq!(config.display_fifo_size, DEFAULT_FIFO_SIZE);
    let config = config.display_fifo_size(MIN_FIFO_SIZE);
    assert_eq!(config.display_fifo_size, MIN_FIFO_SIZE);
}

#[test]
fn run_with_overridden_fifo_size() {
    let config = EngineConfig::new().display_fifo_size(4096);
    let outcome = Engine::run_with(Silent, config, 2);
    assert_eq!(outcome.result, Ok(()));
    assert_eq!(outcome.display.fifo_capacity(), 4096);
    assert_eq!(outcome.log, expected_trace(2));
}

#[test]
fn exhausted_fifo_stops_the_run_with_buffer_full() {
    // The smallest FIFO holds the pipeline setup and a viewport reset but
    // no draw packet: the first frame's fill fails, the engine treats the
    // draw error as fatal for the run, and the log stops after that
    // frame's update.
    let config = EngineConfig::new().display_fifo_size(MIN_FIFO_SIZE);
    let outcome = Engine::run_with(Mover { frame: 0 }, config, 5);
    assert_eq!(outcome.result, Err(DrawError::BufferFull));
    let mut expected = expected_trace(0);
    expected.push(FrameEvent::InputScan { frame: 0 });
    expected.push(FrameEvent::Update { frame: 0 });
    assert_eq!(outcome.log, expected);
}

#[test]
fn draw_failure_stops_the_run_at_that_frame() {
    let outcome = Engine::run(FailsThird { frame: 0 }, 10);
    assert_eq!(outcome.result, Err(DrawError::BufferFull));
    // Frames 0 and 1 completed; the log ends right after frame 2's update.
    let mut expected = expected_trace(2);
    expected.push(FrameEvent::InputScan { frame: 2 });
    expected.push(FrameEvent::Update { frame: 2 });
    assert_eq!(outcome.log, expected);
}
