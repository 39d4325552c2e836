//! Scene lifecycle and transition protocol. A scene is realized from a
//! lightweight descriptor, then repeatedly updated and drawn; each update
//! returns a transition result that only the orchestrator consumes. An
//! overlay scene may exclusively own a predecessor scene and hand it back
//! through the protocol.

use vstd::prelude::*;
use crate::input_state::{key_at, InputState, InputStateView};
use crate::surface::{DrawCommandView, Fonts, FontHandle, Surface};
use crate::test_scene::{
    initial_test_scene, test_transition, test_update, PreInitializedTestScene, TestScene,
};
use crate::test_scene_deep::{
    deep_text, DeepSceneView, PreInitializedTestSceneDeep, TestSceneDeep, RELEASE_KEY_INDEX,
};

verus! {

/// Mathematical model of a realized scene.
#[verifier::ext_equal]
pub enum SceneView {
    Void,
    Test(crate::test_scene::TestSceneView),
    Deep(DeepSceneView),
}

/// A scene that does nothing: the inert value the protocol uses where a
/// scene slot must never be empty.
pub struct VoidScene {}

/// A realized scene: one of the scene kinds the application runs.
pub enum Scene {
    Void(VoidScene),
    Test(TestScene),
    Deep(Box<TestSceneDeep>),
}

/// View of a realized scene.
pub open spec fn scene_view(s: Scene) -> SceneView
    decreases s,
{
    match s {
        Scene::Void(_) => SceneView::Void,
        Scene::Test(t) => SceneView::Test(t@),
        Scene::Deep(d) => SceneView::Deep(
            DeepSceneView {
                previous: Box::new(scene_view((*d).previous_scene)),
                text: (*d).text@,
            },
        ),
    }
}

impl View for Scene {
    type V = SceneView;

    open spec fn view(&self) -> SceneView {
        scene_view(*self)
    }
}

/// Internal bounds every realized scene maintains between ticks.
pub open spec fn scene_wf(s: SceneView) -> bool
    decreases s,
{
    match s {
        SceneView::Void => true,
        SceneView::Test(t) => t.wf(),
        SceneView::Deep(d) => scene_wf(*d.previous),
    }
}

/// Everything a scene draws in one pass, in order, back to front. A scene
/// that embeds a predecessor draws the predecessor's content first, then
/// its own.
pub open spec fn draw_output(s: SceneView) -> Seq<DrawCommandView>
    decreases s,
{
    match s {
        SceneView::Void => Seq::empty(),
        SceneView::Test(t) => seq![DrawCommandView::Text(t.text)],
        SceneView::Deep(d) => draw_output(*d.previous).push(DrawCommandView::Text(d.text)),
    }
}

/// Mathematical model of a scene descriptor.
#[verifier::ext_equal]
pub enum PreSceneView {
    Test,
    Deep,
}

impl PreSceneView {
    /// Whether realizing this descriptor needs a predecessor scene to embed.
    pub open spec fn requires_predecessor(self) -> bool {
        match self {
            PreSceneView::Test => false,
            PreSceneView::Deep => true,
        }
    }
}

/// A pre-initialized scene: a cheaply constructed descriptor that captures
/// the parameters of a scene and defers resource acquisition until the
/// orchestrator commits to running it.
pub enum PreInitializedScene {
    Test(PreInitializedTestScene),
    Deep(PreInitializedTestSceneDeep),
}

impl View for PreInitializedScene {
    type V = PreSceneView;

    open spec fn view(&self) -> PreSceneView {
        match self {
            PreInitializedScene::Test(_) => PreSceneView::Test,
            PreInitializedScene::Deep(_) => PreSceneView::Deep,
        }
    }
}

/// Mathematical model of a transition result.
#[verifier::ext_equal]
pub enum UpdateResultView {
    Continue,
    SwitchToPreInitialized(PreSceneView),
    SwitchToExisting(SceneView),
}

/// What one update step asks the orchestrator to do next: keep the scene,
/// realize a descriptor in its place, or swap in an already-realized scene
/// whose exclusive ownership is handed over with this value.
pub enum UpdateSceneResult {
    Continue,
    SwitchToPreInitializedScene(PreInitializedScene),
    SwitchToExistingScene(Scene),
}

impl View for UpdateSceneResult {
    type V = UpdateResultView;

    open spec fn view(&self) -> UpdateResultView {
        match self {
            UpdateSceneResult::Continue => UpdateResultView::Continue,
            UpdateSceneResult::SwitchToPreInitializedScene(p) => {
                UpdateResultView::SwitchToPreInitialized(p@)
            },
            UpdateSceneResult::SwitchToExistingScene(s) => UpdateResultView::SwitchToExisting(s@),
        }
    }
}

/// View of an optional predecessor scene.
pub open spec fn option_scene_view(o: Option<Scene>) -> Option<SceneView> {
    match o {
        Option::Some(s) => Option::Some(scene_view(s)),
        Option::None => Option::None,
    }
}

/// The scene a descriptor realizes to, given the shared fonts and the
/// optional predecessor.
pub open spec fn spec_init_graphics(
    p: PreSceneView,
    font: FontHandle,
    prev: Option<SceneView>,
) -> SceneView {
    match p {
        PreSceneView::Test => SceneView::Test(initial_test_scene(font)),
        PreSceneView::Deep => SceneView::Deep(
            DeepSceneView { previous: Box::new(prev.unwrap()), text: deep_text(font) },
        ),
    }
}

/// One update step of a scene: the updated scene and the transition it
/// requests. An overlay drives its embedded predecessor first; the
/// predecessor's own transition request is not forwarded. While the
/// release slot is pressed, the overlay hands its predecessor back and
/// keeps an inert scene in its place.
pub open spec fn scene_update(s: SceneView, input: InputStateView, dt: u64) -> (
    SceneView,
    UpdateResultView,
)
    decreases s,
{
    match s {
        SceneView::Void => (s, UpdateResultView::Continue),
        SceneView::Test(t) => (
            SceneView::Test(test_update(t, input, dt)),
            test_transition(input),
        ),
        SceneView::Deep(d) => {
            let (prev2, _ignored) = scene_update(*d.previous, input, dt);
            if key_at(input, RELEASE_KEY_INDEX) {
                (
                    SceneView::Deep(
                        DeepSceneView { previous: Box::new(SceneView::Void), text: d.text },
                    ),
                    UpdateResultView::SwitchToExisting(prev2),
                )
            } else {
                (
                    SceneView::Deep(DeepSceneView { previous: Box::new(prev2), text: d.text }),
                    UpdateResultView::Continue,
                )
            }
        },
    }
}

/// Embedding invariant: a scene that embeds a predecessor draws the
/// predecessor's whole content first — the surface commands it appends
/// begin with exactly the predecessor's draw output, and its own content
/// follows.
pub proof fn lemma_embedded_scene_draws_predecessor_first(d: DeepSceneView)
    ensures
        draw_output(SceneView::Deep(d)) == draw_output(*d.previous) + seq![
            DrawCommandView::Text(d.text),
        ],
        draw_output(SceneView::Deep(d)).take(draw_output(*d.previous).len() as int)
            == draw_output(*d.previous),
{
    assert(draw_output(SceneView::Deep(d)) =~= draw_output(*d.previous) + seq![
        DrawCommandView::Text(d.text),
    ]);
    assert(draw_output(SceneView::Deep(d)).take(draw_output(*d.previous).len() as int)
        =~= draw_output(*d.previous));
}

/// A transition result that hands a scene over also hands over that
/// scene's internal bounds.
pub open spec fn result_scene_wf(r: UpdateResultView) -> bool {
    match r {
        UpdateResultView::SwitchToExisting(s) => scene_wf(s),
        _ => true,
    }
}

impl VoidScene {
    pub fn start_animations(&mut self)
        ensures
            *final(self) == *old(self),
    {
    }

    pub fn draw(&self, surface: &mut Surface)
        ensures
            *final(surface) == *old(surface),
    {
    }

    pub fn update_state(
        &mut self,
        _input_state: &InputState,
        _delta_time: u64,
        _last_delta_time: u64,
    ) -> (r: UpdateSceneResult)
        ensures
            *final(self) == *old(self),
            r@ == UpdateResultView::Continue,
    {
        UpdateSceneResult::Continue
    }
}

impl Scene {
    /// Starts the scene's animations; called once after realization,
    /// before the first draw.
    pub fn start_animations(&mut self)
        ensures
            *final(self) == *old(self),
    {
        match self {
            Scene::Void(v) => v.start_animations(),
            Scene::Test(t) => t.start_animations(),
            Scene::Deep(d) => d.start_animations(),
        }
    }

    /// Draws the scene's content onto the surface, appending exactly its
    /// draw output. The surface has already been cleared by the
    /// orchestrator; no scene clears it again.
    pub fn draw(&self, surface: &mut Surface)
        ensures
            final(surface)@ == old(surface)@ + draw_output(self@),
        decreases *self, 1int,
    {
        match self {
            Scene::Void(_) => {
                proof {
                    assert(final(surface)@ =~= old(surface)@ + draw_output(self@));
                }
            },
            Scene::Test(t) => {
                t.draw(surface);
                proof {
                    assert(final(surface)@ =~= old(surface)@ + draw_output(self@));
                }
            },
            Scene::Deep(d) => {
                d.draw(surface);
                proof {
                    assert(final(surface)@ =~= old(surface)@ + draw_output(self@));
                }
            },
        }
    }

    fn update_owned(self, input_state: &InputState, delta_time: u64, last_delta_time: u64) -> (res:
        (Scene, UpdateSceneResult))
        requires
            input_state@.wf(),
            scene_wf(self@),
        ensures
            res.0@ == scene_update(self@, input_state@, delta_time).0,
            res.1@ == scene_update(self@, input_state@, delta_time).1,
            scene_wf(res.0@),
            result_scene_wf(res.1@),
        decreases self, 0int,
    {
        match self {
            Scene::Void(v) => {
                proof {
                    assert(scene_update(self@, input_state@, delta_time) == (
                        SceneView::Void,
                        UpdateResultView::Continue,
                    ));
                }
                (Scene::Void(v), UpdateSceneResult::Continue)
            },
            Scene::Test(mut t) => {
                let r = t.update_state(input_state, delta_time, last_delta_time);
                let out = (Scene::Test(t), r);
                proof {
                    assert(out.0@ == scene_update(self@, input_state@, delta_time).0);
                }
                out
            },
            Scene::Deep(mut d) => {
                proof {
                    assert(self@ == SceneView::Deep(
                        DeepSceneView {
                            previous: Box::new(scene_view((*d).previous_scene)),
                            text: (*d).text@,
                        },
                    ));
                }
                let r = d.update_state(input_state, delta_time, last_delta_time);
                let out = (Scene::Deep(d), r);
                proof {
                    assert(out.0@ == scene_update(self@, input_state@, delta_time).0);
                }
                out
            },
        }
    }

    /// Updates the scene against the settled input snapshot and this
    /// tick's timing, and returns the transition it requests.
    pub fn update_state(
        &mut self,
        input_state: &InputState,
        delta_time: u64,
        last_delta_time: u64,
    ) -> (r: UpdateSceneResult)
        requires
            input_state@.wf(),
            scene_wf(old(self)@),
        ensures
            final(self)@ == scene_update(old(self)@, input_state@, delta_time).0,
            r@ == scene_update(old(self)@, input_state@, delta_time).1,
            scene_wf(final(self)@),
            result_scene_wf(r@),
        decreases *old(self), 1int,
    {
        let mut taken: Scene = Scene::Void(VoidScene {});
        core::mem::swap(&mut taken, self);
        let (next, r) = taken.update_owned(input_state, delta_time, last_delta_time);
        *self = next;
        r
    }
}

impl PreInitializedScene {
    /// Whether this descriptor's scene must embed a predecessor.
    pub fn wants_predecessor(&self) -> (b: bool)
        ensures
            b == self@.requires_predecessor(),
    {
        match self {
            PreInitializedScene::Test(_) => false,
            PreInitializedScene::Deep(_) => true,
        }
    }

    /// Realizes the descriptor into a running scene. A descriptor that
    /// requires a predecessor must be given one: handing it none is a
    /// transition-wiring bug, not a recoverable condition, so the contract
    /// rules it out.
    pub fn init_graphics(&self, fonts: &Fonts, previous_scene: Option<Scene>) -> (s: Scene)
        requires
            self@.requires_predecessor() ==> previous_scene is Some,
            previous_scene matches Some(p) ==> scene_wf(p@),
        ensures
            s@ == spec_init_graphics(self@, fonts.main_font, option_scene_view(previous_scene)),
            scene_wf(s@),
    {
        match self {
            PreInitializedScene::Test(p) => Scene::Test(p.init_graphics(fonts)),
            PreInitializedScene::Deep(p) => {
                let prev = previous_scene.unwrap();
                Scene::Deep(Box::new(p.init_graphics(fonts, prev)))
            },
        }
    }
}

} // verus!
