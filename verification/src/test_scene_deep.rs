//! The overlay sample scene: embeds and keeps driving a predecessor scene,
//! draws it first and its own label on top, and releases the predecessor
//! back to the orchestrator when the release slot is pressed. Illustrative
//! payload, not part of the core protocol.

use vstd::prelude::*;
use crate::input_state::InputState;
use crate::scene::{
    draw_output, scene_update, scene_view, scene_wf, result_scene_wf, Scene, SceneView,
    UpdateSceneResult, VoidScene,
};
use crate::surface::{FontHandle, Fonts, Surface, TextGraphic, TextGraphicView};

verus! {

/// Virtual slot that releases the embedded predecessor.
pub const RELEASE_KEY_INDEX: usize = 1;

/// Mathematical model of the overlay scene.
#[verifier::ext_equal]
pub struct DeepSceneView {
    pub previous: Box<SceneView>,
    pub text: TextGraphicView,
}

/// The overlay's own label: drawn below the predecessor's first text line.
pub open spec fn deep_text(font: FontHandle) -> TextGraphicView {
    TextGraphicView { content: "Deep Scene!"@, x: 0, y: 32, size: 16, font: font }
}

/// The realized overlay scene. It exclusively owns its predecessor; the
/// chain is bounded by construction, since a predecessor can only be a
/// scene handed over as an already-constructed value.
pub struct TestSceneDeep {
    pub previous_scene: Scene,
    pub text: TextGraphic,
}

impl View for TestSceneDeep {
    type V = DeepSceneView;

    open spec fn view(&self) -> DeepSceneView {
        DeepSceneView {
            previous: Box::new(scene_view(self.previous_scene)),
            text: self.text@,
        }
    }
}

impl TestSceneDeep {
    pub fn start_animations(&mut self)
        ensures
            *final(self) == *old(self),
    {
    }

    /// Draws the embedded predecessor's whole content first, then the
    /// overlay's own label: back-to-front compositing is preserved. The
    /// surface is never cleared here; the orchestrator has already done so.
    pub fn draw(&self, surface: &mut Surface)
        ensures
            final(surface)@ == old(surface)@ + draw_output(SceneView::Deep(self@)),
        decreases *self, 2int,
    {
        self.previous_scene.draw(surface);
        surface.draw_text(&self.text);
        proof {
            assert(final(surface)@ =~= old(surface)@ + draw_output(SceneView::Deep(self@)));
        }
    }

    /// Drives the embedded predecessor, then decides the overlay's own
    /// transition: while the release slot is pressed it hands the
    /// predecessor back — exclusive ownership moves out with the result,
    /// and an inert scene takes its place inside the overlay.
    pub fn update_state(
        &mut self,
        input_state: &InputState,
        delta_time: u64,
        last_delta_time: u64,
    ) -> (r: UpdateSceneResult)
        requires
            input_state@.wf(),
            scene_wf(SceneView::Deep(old(self)@)),
        ensures
            SceneView::Deep(final(self)@) == scene_update(
                SceneView::Deep(old(self)@),
                input_state@,
                delta_time,
            ).0,
            r@ == scene_update(SceneView::Deep(old(self)@), input_state@, delta_time).1,
            scene_wf(SceneView::Deep(final(self)@)),
            result_scene_wf(r@),
        decreases *old(self), 2int,
    {
        let _embedded_request = self.previous_scene.update_state(
            input_state,
            delta_time,
            last_delta_time,
        );
        if input_state.get_key_state(RELEASE_KEY_INDEX) {
            let mut scene: Scene = Scene::Void(VoidScene {});
            core::mem::swap(&mut scene, &mut self.previous_scene);
            proof {
                assert(scene_view(Scene::Void(VoidScene {})) == SceneView::Void);
                assert(scene_wf(SceneView::Void));
                assert(scene_wf(SceneView::Deep(self@)));
            }
            return UpdateSceneResult::SwitchToExistingScene(scene);
        }
        UpdateSceneResult::Continue
    }
}

/// Descriptor for the overlay scene: realization requires a predecessor
/// scene to embed; handing it none is a wiring error the orchestrator must
/// not commit.
pub struct PreInitializedTestSceneDeep {}

impl PreInitializedTestSceneDeep {
    /// Realizes the overlay around the given predecessor, taking exclusive
    /// ownership of it.
    pub fn init_graphics(&self, fonts: &Fonts, previous_scene: Scene) -> (s: TestSceneDeep)
        ensures
            s@ == (DeepSceneView {
                previous: Box::new(scene_view(previous_scene)),
                text: deep_text(fonts.main_font),
            }),
    {
        let s = TestSceneDeep {
            previous_scene,
            text: TextGraphic {
                content: "Deep Scene!".to_owned(),
                x: 0,
                y: 32,
                size: 16,
                font: fonts.main_font,
            },
        };
        proof {
            assert(s@ =~= (DeepSceneView {
                previous: Box::new(scene_view(s.previous_scene)),
                text: deep_text(fonts.main_font),
            }));
        }
        s
    }
}

} // verus!
