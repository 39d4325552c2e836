//! The frame orchestrator: owns the one active scene, the virtual-input
//! state and the frame timing, and runs each tick in strict order — draw,
//! then input sampling, then the scene update — applying any requested
//! scene transition atomically within the tick.
//!
//! The embedding application owns the real window and clock: it presents
//! the recorded surface, measures the elapsed time and drains the
//! platform's events, then hands all three to the tick as plain values.

use vstd::prelude::*;
use crate::input_state::{
    apply_events, clear_transient, key_at, Event, InputState, InputStateView,
};
use crate::scene::{
    draw_output, result_scene_wf, scene_update, scene_wf, spec_init_graphics,
    PreInitializedScene, PreSceneView, Scene, SceneView, UpdateResultView, UpdateSceneResult,
    VoidScene,
};
use crate::surface::{Color, DrawCommandView, Fonts, FontHandle, Surface};
use crate::test_scene::{PreInitializedTestScene, TestSceneView, OVERLAY_KEY_INDEX};
use crate::test_scene_deep::{deep_text, DeepSceneView};

verus! {

/// What the orchestrator applies to a surface in one tick: its own single
/// clear, then the active scene's content. Scenes never clear the shared
/// surface themselves.
pub open spec fn frame_output(s: SceneView) -> Seq<DrawCommandView> {
    seq![DrawCommandView::Clear(Color { r: 0, g: 0, b: 0, a: 255 })] + draw_output(s)
}

/// The scene the orchestrator holds after consuming one transition result:
/// `Continue` keeps the updated scene; an existing scene replaces it by
/// ownership transfer; a descriptor is realized against the shared fonts,
/// with the outgoing scene embedded as predecessor exactly when the
/// descriptor's scene requires one.
pub open spec fn apply_transition(
    current: SceneView,
    r: UpdateResultView,
    font: FontHandle,
) -> SceneView {
    match r {
        UpdateResultView::Continue => current,
        UpdateResultView::SwitchToExisting(s) => s,
        UpdateResultView::SwitchToPreInitialized(p) => spec_init_graphics(
            p,
            font,
            if p.requires_predecessor() {
                Option::Some(current)
            } else {
                Option::None
            },
        ),
    }
}

/// The active scene after one whole scene-update step: the scene's own
/// update, then the transition it requested.
pub open spec fn next_scene(
    s: SceneView,
    input: InputStateView,
    dt: u64,
    font: FontHandle,
) -> SceneView {
    apply_transition(
        scene_update(s, input, dt).0,
        scene_update(s, input, dt).1,
        font,
    )
}

/// Transition atomicity: consuming any transition result leaves the
/// orchestrator with exactly the one well-formed scene this function
/// names — a transition is never half-applied, and the active-scene slot
/// is never empty or doubled.
pub proof fn lemma_transition_yields_one_scene(
    current: SceneView,
    r: UpdateResultView,
    font: FontHandle,
)
    requires
        scene_wf(current),
        result_scene_wf(r),
    ensures
        scene_wf(apply_transition(current, r, font)),
{
    match r {
        UpdateResultView::Continue => {},
        UpdateResultView::SwitchToExisting(_) => {},
        UpdateResultView::SwitchToPreInitialized(p) => {
            match p {
                PreSceneView::Test => {
                    assert(scene_wf(apply_transition(current, r, font)));
                },
                PreSceneView::Deep => {
                    assert(scene_wf(apply_transition(current, r, font)));
                },
            }
        },
    }
}

/// When the running scene requests the overlay descriptor — one whose
/// scene requires a predecessor — the orchestrator realizes it around the
/// updated outgoing scene: the next active scene embeds the outgoing one,
/// so every later draw renders the outgoing scene's content first and the
/// overlay's content after it.
pub proof fn lemma_overlay_transition_embeds_outgoing(
    t: TestSceneView,
    input: InputStateView,
    dt: u64,
    font: FontHandle,
)
    requires
        key_at(input, OVERLAY_KEY_INDEX),
    ensures
        next_scene(SceneView::Test(t), input, dt, font) == SceneView::Deep(
            DeepSceneView {
                previous: Box::new(scene_update(SceneView::Test(t), input, dt).0),
                text: deep_text(font),
            },
        ),
{
}

/// The frame orchestrator. Between ticks it always holds exactly one
/// realized scene — never none, never two.
pub struct SceneManager {
    pub fonts: Fonts,
    pub input_state: InputState,
    pub last_delta_time: u64,
    pub current_scene: Scene,
    pub running: bool,
}

impl SceneManager {
    /// The orchestrator's invariant: the input tables have their fixed
    /// sizes and the held scene keeps its internal bounds.
    pub open spec fn wf(self) -> bool {
        &&& self.input_state@.wf()
        &&& scene_wf(self.current_scene@)
    }

    /// Builds the orchestrator around the shared fonts: fresh input state,
    /// zero timing history, and the initial scene realized from its
    /// descriptor and started.
    pub fn new(fonts: Fonts) -> (m: SceneManager)
        ensures
            m.wf(),
            m.fonts == fonts,
            m.input_state@ == InputStateView::initial(),
            m.last_delta_time == 0,
            m.running,
            m.current_scene@ == spec_init_graphics(
                PreSceneView::Test,
                fonts.main_font,
                Option::None,
            ),
    {
        let descriptor = PreInitializedScene::Test(PreInitializedTestScene {});
        let mut scene = descriptor.init_graphics(&fonts, None);
        scene.start_animations();
        SceneManager {
            fonts,
            input_state: InputState::new(),
            last_delta_time: 0,
            current_scene: scene,
            running: true,
        }
    }

    /// Whether the run loop should keep going; cleared only by the
    /// window-close fallback during input sampling.
    pub fn is_running(&self) -> (b: bool)
        ensures
            b == self.running,
    {
        self.running
    }

    /// Draws one frame: clears the surface once, then delegates to the
    /// active scene.
    pub fn draw(&self, surface: &mut Surface)
        ensures
            final(surface)@ == old(surface)@ + frame_output(self.current_scene@),
    {
        surface.clear(Color::black());
        self.current_scene.draw(surface);
        proof {
            assert(final(surface)@ =~= old(surface)@ + frame_output(self.current_scene@));
        }
    }

    /// Samples one frame's input: wipes the transient fields once, applies
    /// every event in order, and treats an unmatched close event as the
    /// request to stop the run loop.
    pub fn update_input_state(&mut self, events: &Vec<Event>)
        requires
            old(self).wf(),
        ensures
            final(self).wf(),
            final(self).input_state@ == apply_events(
                clear_transient(old(self).input_state@),
                events@,
            ),
            final(self).running == (old(self).running && !events@.contains(Event::Closed)),
            final(self).current_scene == old(self).current_scene,
            final(self).fonts == old(self).fonts,
            final(self).last_delta_time == old(self).last_delta_time,
    {
        self.input_state.clear_state();
        let ghost start: InputStateView = clear_transient(old(self).input_state@);
        let mut i: usize = 0;
        while i < events.len()
            invariant
                i <= events@.len(),
                self.input_state@ == apply_events(start, events@.take(i as int)),
                self.input_state@.wf(),
                self.running == (old(self).running && !events@.take(i as int).contains(
                    Event::Closed,
                )),
                self.current_scene == old(self).current_scene,
                self.fonts == old(self).fonts,
                self.last_delta_time == old(self).last_delta_time,
            decreases events@.len() - i,
        {
            let event = events[i];
            let matched = self.input_state.on_event(event);
            let is_close = match event {
                Event::Closed => true,
                _ => false,
            };
            if !matched && is_close {
                self.running = false;
            }
            proof {
                assert(events@.take(i as int + 1).drop_last() =~= events@.take(i as int));
                assert(events@.take(i as int + 1).last() == events@[i as int]);
                if events@.take(i as int).contains(Event::Closed) {
                    let k = choose|k: int|
                        0 <= k < events@.take(i as int).len() && events@.take(i as int)[k]
                            == Event::Closed;
                    assert(events@.take(i as int + 1)[k] == Event::Closed);
                    assert(events@.take(i as int + 1).contains(Event::Closed));
                } else if is_close {
                    assert(events@.take(i as int + 1)[i as int] == event);
                    assert(events@.take(i as int + 1).contains(Event::Closed));
                } else {
                    assert forall|k: int|
                        0 <= k < i as int + 1 implies #[trigger] events@.take(i as int + 1)[k]
                        != Event::Closed by {
                        if k < i as int {
                            assert(events@.take(i as int)[k] == events@.take(i as int + 1)[k]);
                        } else {
                            assert(events@.take(i as int + 1)[k] == event);
                        }
                    }
                    assert(!events@.take(i as int + 1).contains(Event::Closed));
                }
            }
            i = i + 1;
        }
        proof {
            assert(events@.take(events@.len() as int) =~= events@);
        }
    }

    /// Updates the active scene against the settled input snapshot, stores
    /// this tick's delta time, and applies the requested transition before
    /// the tick ends: the orchestrator never holds a half-applied switch.
    pub fn update_scene(&mut self, delta_time: u64)
        requires
            old(self).wf(),
        ensures
            final(self).wf(),
            final(self).current_scene@ == next_scene(
                old(self).current_scene@,
                old(self).input_state@,
                delta_time,
                old(self).fonts.main_font,
            ),
            final(self).last_delta_time == delta_time,
            final(self).input_state == old(self).input_state,
            final(self).fonts == old(self).fonts,
            final(self).running == old(self).running,
    {
        let r = self.current_scene.update_state(
            &self.input_state,
            delta_time,
            self.last_delta_time,
        );
        self.last_delta_time = delta_time;
        match r {
            UpdateSceneResult::Continue => {},
            UpdateSceneResult::SwitchToExistingScene(s) => {
                self.current_scene = s;
            },
            UpdateSceneResult::SwitchToPreInitializedScene(p) => {
                if p.wants_predecessor() {
                    let mut outgoing: Scene = Scene::Void(VoidScene {});
                    core::mem::swap(&mut outgoing, &mut self.current_scene);
                    let mut fresh = p.init_graphics(&self.fonts, Some(outgoing));
                    fresh.start_animations();
                    self.current_scene = fresh;
                } else {
                    let mut fresh = p.init_graphics(&self.fonts, None);
                    fresh.start_animations();
                    self.current_scene = fresh;
                }
            },
        }
    }

    /// Direct access to the virtual-input state, for the embedding
    /// application's startup configuration of the physical-to-virtual
    /// mappings.
    pub fn temp_get_input_state(&mut self) -> (r: &mut InputState)
        ensures
            *r == old(self).input_state,
            final(self).input_state == *final(r),
            final(self).current_scene == old(self).current_scene,
            final(self).fonts == old(self).fonts,
            final(self).last_delta_time == old(self).last_delta_time,
            final(self).running == old(self).running,
    {
        &mut self.input_state
    }

    /// One whole tick, in strict order: draw the current scene, sample the
    /// frame's input with the close fallback, and — if still running —
    /// update the scene and apply its transition. A stopped orchestrator
    /// does nothing.
    pub fn update(&mut self, surface: &mut Surface, delta_time: u64, events: &Vec<Event>)
        requires
            old(self).wf(),
        ensures
            final(self).wf(),
            !old(self).running ==> *final(self) == *old(self) && *final(surface) == *old(
                surface,
            ),
            old(self).running ==> final(surface)@ == old(surface)@ + frame_output(
                old(self).current_scene@,
            ),
            old(self).running ==> final(self).input_state@ == apply_events(
                clear_transient(old(self).input_state@),
                events@,
            ),
            old(self).running ==> final(self).running == !events@.contains(Event::Closed),
            final(self).fonts == old(self).fonts,
            (old(self).running && !events@.contains(Event::Closed)) ==> {
                &&& final(self).current_scene@ == next_scene(
                    old(self).current_scene@,
                    apply_events(clear_transient(old(self).input_state@), events@),
                    delta_time,
                    old(self).fonts.main_font,
                )
                &&& final(self).last_delta_time == delta_time
            },
            (old(self).running && events@.contains(Event::Closed)) ==> {
                &&& final(self).current_scene == old(self).current_scene
                &&& final(self).last_delta_time == old(self).last_delta_time
            },
    {
        if !self.is_running() {
            return;
        }
        self.draw(surface);
        self.update_input_state(events);
        if self.is_running() {
            self.update_scene(delta_time);
        }
    }
}

} // verus!
