//! The sample scene: shows a status line with the primary virtual slot,
//! the frame's wheel delta and a frame-rate estimate, and requests the
//! overlay scene when the overlay slot is pressed. Illustrative payload,
//! not part of the core protocol.

use vstd::prelude::*;
use crate::input_state::{key_at, InputState, InputStateView};
use crate::scene::{PreInitializedScene, PreSceneView, UpdateResultView, UpdateSceneResult};
use crate::surface::{Fonts, FontHandle, Surface, TextGraphic, TextGraphicView, DrawCommandView};
use crate::test_scene_deep::PreInitializedTestSceneDeep;
use crate::text_format::{format_status, status_text};

verus! {

/// Virtual slot the status line reports as the main input.
pub const MAIN_KEY_INDEX: usize = 0;

/// Virtual slot that asks for the overlay scene to be opened.
pub const OVERLAY_KEY_INDEX: usize = 2;

/// Number of frames over which the frame rate is measured.
pub const FPS_FRAME_WINDOW: u32 = 60;

/// Microseconds per second, for the frame-rate computation.
pub const MICROS_PER_SECOND: u64 = 1000000;

/// Mathematical model of the sample scene.
#[verifier::ext_equal]
pub struct TestSceneView {
    pub last_wheel: int,
    pub frame_count: int,
    pub time_accu: int,
    pub fps: int,
    pub last_main_input: bool,
    pub text: TextGraphicView,
}

impl TestSceneView {
    /// The frame counter never runs past the measuring window.
    pub open spec fn wf(self) -> bool {
        0 <= self.frame_count <= FPS_FRAME_WINDOW
    }
}

/// Frame-rate estimate over one measuring window: the accumulated time is
/// in microseconds, so the window's frame count divided by its seconds is
/// `frames / (time_accu / MICROS_PER_SECOND)`; with the window fixed this
/// is computed as `time_accu * frames / MICROS_PER_SECOND`, the form the
/// scene displays.
pub open spec fn fps_value(time_accu: int, frames: int) -> int {
    (time_accu * frames) / (MICROS_PER_SECOND as int)
}

/// Closes a measuring window once it is full: publishes the estimate and
/// restarts the counters.
pub open spec fn fps_update(t: TestSceneView) -> TestSceneView {
    if t.frame_count >= FPS_FRAME_WINDOW {
        TestSceneView {
            fps: fps_value(t.time_accu, t.frame_count),
            frame_count: 0,
            time_accu: 0,
            ..t
        }
    } else {
        t
    }
}

/// One update step of the sample scene: close the measuring window if it
/// is full, refresh the status line when an input changed (or on the first
/// frame of a window), then record this frame's inputs and time.
pub open spec fn test_update(t: TestSceneView, input: InputStateView, dt: u64) -> TestSceneView {
    let main_input = key_at(input, MAIN_KEY_INDEX);
    let wheel = input.wheel_delta;
    let t1 = fps_update(t);
    let t2 = if t1.last_main_input != main_input || t1.last_wheel != wheel || t1.frame_count
        == 0 {
        TestSceneView {
            text: TextGraphicView {
                content: status_text(main_input, wheel, t1.fps),
                ..t1.text
            },
            ..t1
        }
    } else {
        t1
    };
    TestSceneView {
        last_main_input: main_input,
        last_wheel: wheel,
        frame_count: t2.frame_count + 1,
        time_accu: if t2.time_accu + dt > u64::MAX { u64::MAX as int } else { t2.time_accu + dt },
        ..t2
    }
}

/// The transition the sample scene requests: the overlay scene while the
/// overlay slot is pressed, otherwise none.
pub open spec fn test_transition(input: InputStateView) -> UpdateResultView {
    if key_at(input, OVERLAY_KEY_INDEX) {
        UpdateResultView::SwitchToPreInitialized(PreSceneView::Deep)
    } else {
        UpdateResultView::Continue
    }
}

/// The freshly realized sample scene: all counters zero, placeholder text.
pub open spec fn initial_test_scene(font: FontHandle) -> TestSceneView {
    TestSceneView {
        last_wheel: 0,
        frame_count: 0,
        time_accu: 0,
        fps: 0,
        last_main_input: false,
        text: TextGraphicView {
            content: "No last press"@,
            x: 0,
            y: 0,
            size: 16,
            font: font,
        },
    }
}

/// Graphics state the sample scene owns.
pub struct TestSceneGraphics {
    pub text: TextGraphic,
}

/// The realized sample scene.
pub struct TestScene {
    pub last_wheel: i32,
    pub frame_count: u32,
    pub time_accu: u64,
    pub fps: u64,
    pub last_main_input: bool,
    pub graphics: TestSceneGraphics,
}

impl View for TestScene {
    type V = TestSceneView;

    open spec fn view(&self) -> TestSceneView {
        TestSceneView {
            last_wheel: self.last_wheel as int,
            frame_count: self.frame_count as int,
            time_accu: self.time_accu as int,
            fps: self.fps as int,
            last_main_input: self.last_main_input,
            text: self.graphics.text@,
        }
    }
}

impl TestScene {
    fn update_fps_state(&mut self)
        requires
            old(self)@.wf(),
        ensures
            final(self)@ == fps_update(old(self)@),
            final(self)@.wf(),
    {
        if self.frame_count >= FPS_FRAME_WINDOW {
            let prod: u128 = (self.time_accu as u128) * (self.frame_count as u128);
            proof {
                assert(self.frame_count == FPS_FRAME_WINDOW);
                vstd::arithmetic::mul::lemma_mul_inequality(
                    self.time_accu as int,
                    u64::MAX as int,
                    FPS_FRAME_WINDOW as int,
                );
            }
            let f: u128 = prod / (MICROS_PER_SECOND as u128);
            proof {
                vstd::arithmetic::div_mod::lemma_div_is_ordered(
                    prod as int,
                    u64::MAX as int * FPS_FRAME_WINDOW as int,
                    MICROS_PER_SECOND as int,
                );
                assert(f <= u64::MAX);
            }
            self.fps = f as u64;
            self.frame_count = 0;
            self.time_accu = 0;
        }
    }

    fn update_text(&mut self, main_input: bool, wheel: i32)
        ensures
            final(self)@ == (TestSceneView {
                text: TextGraphicView {
                    content: status_text(main_input, wheel as int, old(self)@.fps),
                    ..old(self)@.text
                },
                ..old(self)@
            }),
    {
        self.graphics.text.content = format_status(main_input, wheel, self.fps);
    }

    pub fn start_animations(&mut self)
        ensures
            *final(self) == *old(self),
    {
    }

    /// Draws the status line. The orchestrator has already cleared the
    /// surface; nested content must not clear it again.
    pub fn draw(&self, surface: &mut Surface)
        ensures
            final(surface)@ == old(surface)@.push(DrawCommandView::Text(self@.text)),
    {
        surface.draw_text(&self.graphics.text);
    }

    /// Updates the scene state from the settled input snapshot and this
    /// tick's delta time, and reports the transition it requests.
    pub fn update_state(
        &mut self,
        input_state: &InputState,
        delta_time: u64,
        _last_delta_time: u64,
    ) -> (r: UpdateSceneResult)
        requires
            old(self)@.wf(),
            input_state@.wf(),
        ensures
            final(self)@ == test_update(old(self)@, input_state@, delta_time),
            final(self)@.wf(),
            r@ == test_transition(input_state@),
    {
        let main_input = input_state.get_key_state(MAIN_KEY_INDEX);
        let wheel = input_state.get_wheel_delta();
        self.update_fps_state();
        if self.last_main_input != main_input || self.last_wheel != wheel || self.frame_count
            == 0 {
            self.update_text(main_input, wheel);
        }
        self.last_main_input = main_input;
        self.last_wheel = wheel;
        self.frame_count = self.frame_count + 1;
        self.time_accu = self.time_accu.saturating_add(delta_time);
        proof {
            assert(self@ =~= test_update(old(self)@, input_state@, delta_time));
        }
        if input_state.get_key_state(OVERLAY_KEY_INDEX) {
            UpdateSceneResult::SwitchToPreInitializedScene(
                PreInitializedScene::Deep(PreInitializedTestSceneDeep {}),
            )
        } else {
            UpdateSceneResult::Continue
        }
    }
}

/// Descriptor for the sample scene: carries no parameters; realization
/// builds the status text from the shared fonts.
pub struct PreInitializedTestScene {}

impl PreInitializedTestScene {
    /// Realizes the sample scene against the shared font bundle.
    pub fn init_graphics(&self, fonts: &Fonts) -> (s: TestScene)
        ensures
            s@ == initial_test_scene(fonts.main_font),
            s@.wf(),
    {
        let s = TestScene {
            last_wheel: 0,
            frame_count: 0,
            time_accu: 0,
            fps: 0,
            last_main_input: false,
            graphics: TestSceneGraphics {
                text: TextGraphic {
                    content: "No last press".to_owned(),
                    x: 0,
                    y: 0,
                    size: 16,
                    font: fonts.main_font,
                },
            },
        };
        proof {
            assert(s@ =~= initial_test_scene(fonts.main_font));
        }
        s
    }
}

} // verus!
