//! The frame loop's state and event decisions.
//!
//! The application owns the input state, the fixed-step clock, and the
//! mirrored surface configuration. The windowing layer translates its
//! native events into [`EngineEvent`]s, feeds them through
//! [`Application::process_event`], and performs whatever outside work the
//! returned [`EngineAction`] demands: reconfiguring the surface, or
//! terminating the loop. Once per frame-complete signal it measures the
//! elapsed time and calls [`Application::begin_tick`].

use crate::frame::SurfaceState;
use crate::input::{InputAction, InputManager, Key};
use crate::time::{clamp_frame_time_spec, sum_seq, FrameClock, AVG_FRAME_TIME_SAMPLE,
    FIXED_STEP_MS, FIXED_STEP_US};
use crate::resources::TextureFormat;
use vstd::prelude::*;

verus! {

/// A window-system event, translated into engine terms.
#[derive(Clone, Copy, Debug, PartialEq, Eq, Structural)]
pub enum EngineEvent {
    /// The user asked to close the window.
    CloseRequested,
    /// A key went down or up.
    KeyboardInput { key: Key, pressed: bool },
    /// The window was resized.
    Resized { width: u32, height: u32 },
    /// The scale factor changed, with the new physical size.
    ScaleFactorChanged { width: u32, height: u32 },
}

/// What the loop must do after an event.
#[derive(Clone, Copy, Debug, PartialEq, Eq, Structural)]
pub enum EngineAction {
    /// Nothing outside the engine changes.
    Continue,
    /// Terminate the loop.
    Exit,
    /// Reconfigure the presentation surface to the stored dimensions.
    Reconfigure,
}

/// The engine-owned state of the frame loop.
pub struct Application {
    pub input: InputManager,
    pub clock: FrameClock,
    pub surface: SurfaceState,
}

impl Application {
    /// The input buffers and the clock keep their invariants.
    pub open spec fn wf(self) -> bool {
        self.input.wf() && self.clock.wf()
    }

    /// A fresh application: clean input state with no pending edges, a
    /// zeroed clock and frame-time history, and the given initial
    /// surface configuration.
    pub fn new(width: u32, height: u32, format: TextureFormat) -> (app: Application)
        ensures
            app.wf(),
            app.surface == (SurfaceState {
                width,
                height,
                format,
                present_mode: crate::frame::PresentMode::Fifo,
            }),
            app.clock.accumulator_us() == 0,
            app.clock.total_sim_time_ms() == 0,
            app.clock.frame_counter() == 0,
            app.clock.samples() == Seq::<u64>::new(AVG_FRAME_TIME_SAMPLE as nat, |i: int| 0u64),
            app.clock.sample_index() == 0,
            forall|k: Key| !app.input.pressed(k),
            forall|k: Key|
                !app.input.pressed_this_frame(k) && !app.input.released_this_frame(k),
    {
        Application {
            input: InputManager::new(),
            clock: FrameClock::new(),
            surface: SurfaceState::new(width, height, format),
        }
    }

    /// Processes one window event. A close request exits. A key event
    /// updates the input state, with the reserved exit key signalling
    /// termination. A resize or scale-factor change updates the mirrored
    /// surface configuration and demands reconfiguration — unless either
    /// dimension is zero, in which case nothing changes.
    pub fn process_event(&mut self, event: EngineEvent) -> (action: EngineAction)
        requires
            old(self).wf(),
        ensures
            final(self).wf(),
            match event {
                EngineEvent::CloseRequested => action == EngineAction::Exit && *final(self)
                    == *old(self),
                EngineEvent::KeyboardInput { key, pressed } => {
                    &&& final(self).clock == old(self).clock
                    &&& final(self).surface == old(self).surface
                    &&& final(self).input.prev() == old(self).input.prev()
                    &&& action == (if key == Key::Escape && pressed {
                        EngineAction::Exit
                    } else {
                        EngineAction::Continue
                    })
                    &&& (key == Key::Escape && pressed) ==> final(self).input.curr() == old(self).input.curr()
                    &&& !(key == Key::Escape && pressed) ==> final(self).input.curr() == old(self).input.curr().update(crate::input::key_index_spec(key), pressed)
                },
                EngineEvent::Resized { width, height } => {
                    &&& final(self).input == old(self).input
                    &&& final(self).clock == old(self).clock
                    &&& action == (if width > 0 && height > 0 {
                        EngineAction::Reconfigure
                    } else {
                        EngineAction::Continue
                    })
                    &&& (width > 0 && height > 0) ==> final(self).surface == (SurfaceState {
                        width,
                        height,
                        format: old(self).surface.format,
                        present_mode: old(self).surface.present_mode,
                    })
                    &&& !(width > 0 && height > 0) ==> final(self).surface == old(self).surface
                },
                EngineEvent::ScaleFactorChanged { width, height } => {
                    &&& final(self).input == old(self).input
                    &&& final(self).clock == old(self).clock
                    &&& action == (if width > 0 && height > 0 {
                        EngineAction::Reconfigure
                    } else {
                        EngineAction::Continue
                    })
                    &&& (width > 0 && height > 0) ==> final(self).surface == (SurfaceState {
                        width,
                        height,
                        format: old(self).surface.format,
                        present_mode: old(self).surface.present_mode,
                    })
                    &&& !(width > 0 && height > 0) ==> final(self).surface == old(self).surface
                },
            },
    {
        match event {
            EngineEvent::CloseRequested => EngineAction::Exit,
            EngineEvent::KeyboardInput { key, pressed } => {
                let input_action = self.input.process_key(key, pressed);
                match input_action {
                    InputAction::Exit => EngineAction::Exit,
                    InputAction::Handled => EngineAction::Continue,
                }
            },
            EngineEvent::Resized { width, height } => {
                if self.surface.resize(width, height) {
                    EngineAction::Reconfigure
                } else {
                    EngineAction::Continue
                }
            },
            EngineEvent::ScaleFactorChanged { width, height } => {
                if self.surface.resize(width, height) {
                    EngineAction::Reconfigure
                } else {
                    EngineAction::Continue
                }
            },
        }
    }

    /// Starts one tick: snapshots the key states so edge queries are
    /// well-defined for this tick, then advances the fixed-step clock by
    /// the measured elapsed time. Returns the number of fixed simulation
    /// steps to run.
    pub fn begin_tick(&mut self, elapsed_us: u64) -> (steps: u64)
        requires
            old(self).wf(),
        ensures
            final(self).wf(),
            final(self).surface == old(self).surface,
            final(self).input.curr() == old(self).input.curr(),
            final(self).input.prev() == old(self).input.curr(),
            final(self).clock.samples() == old(self).clock.samples().update(
                old(self).clock.sample_index(),
                clamp_frame_time_spec(elapsed_us),
            ),
            final(self).clock.sample_index() == (old(self).clock.sample_index() + 1) % (
            AVG_FRAME_TIME_SAMPLE as int),
            steps == (old(self).clock.accumulator_us() + clamp_frame_time_spec(elapsed_us)) as int
                / FIXED_STEP_US as int,
            final(self).clock.accumulator_us() == (old(self).clock.accumulator_us()
                + clamp_frame_time_spec(elapsed_us)) as int % FIXED_STEP_US as int,
            old(self).clock.total_sim_time_ms() + FIXED_STEP_MS * steps <= u64::MAX ==> final(self).clock.total_sim_time_ms() == old(self).clock.total_sim_time_ms() + FIXED_STEP_MS
                * steps,
            old(self).clock.frame_counter() < u64::MAX ==> final(self).clock.frame_counter()
                == old(self).clock.frame_counter() + 1,
    {
        self.input.clear_frame_state();
        self.clock.advance(elapsed_us)
    }

    /// Average of the recorded frame times, in microseconds.
    pub fn get_avg_frame_time_us(&self) -> (avg: u64)
        requires
            self.wf(),
        ensures
            avg == sum_seq(self.clock.samples()) / (AVG_FRAME_TIME_SAMPLE as int),
    {
        self.clock.avg_frame_time_us()
    }

    /// Whether a key is down in the current frame.
    pub fn is_key_pressed(&self, key: Key) -> (r: bool)
        requires
            self.wf(),
        ensures
            r == self.input.pressed(key),
    {
        self.input.is_key_pressed(key)
    }

    /// Whether a key went down since the previous tick boundary.
    pub fn was_key_pressed_this_frame(&self, key: Key) -> (r: bool)
        requires
            self.wf(),
        ensures
            r == self.input.pressed_this_frame(key),
    {
        self.input.was_key_pressed_this_frame(key)
    }

    /// Whether a key went up since the previous tick boundary.
    pub fn was_key_released_this_frame(&self, key: Key) -> (r: bool)
        requires
            self.wf(),
        ensures
            r == self.input.released_this_frame(key),
    {
        self.input.was_key_released_this_frame(key)
    }
}

} // verus!
