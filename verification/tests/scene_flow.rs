use scene_core::input_state::{Event, InputState};
use scene_core::scene::{Scene, UpdateSceneResult, VoidScene};
use scene_core::scene_manager::SceneManager;
use scene_core::surface::{Color, DrawCommand, FontHandle, Fonts, Surface};
use scene_core::test_scene::PreInitializedTestScene;

fn fonts() -> Fonts {
    Fonts { main_font: FontHandle { id: 7 } }
}

fn text_contents(surface: &Surface) -> Vec<String> {
    surface
        .commands
        .iter()
        .filter_map(|c| match c {
            DrawCommand::Text(t) => Some(t.content.clone()),
            DrawCommand::Clear(_) => None,
        })
        .collect()
}

#[test]
fn manager_starts_with_sample_scene() {
    let m = SceneManager::new(fonts());
    assert!(m.is_running());
    let mut surface = Surface::new();
    m.draw(&mut surface);
    assert_eq!(surface.commands.len(), 2);
    match &surface.commands[0] {
        DrawCommand::Clear(c) => assert_eq!(*c, Color::black()),
        DrawCommand::Text(_) => panic!("the orchestrator must clear before any content"),
    }
    match &surface.commands[1] {
        DrawCommand::Text(t) => {
            assert_eq!(t.content, "No last press".to_string());
            assert_eq!((t.x, t.y, t.size, t.font.id), (0, 0, 16, 7));
        },
        DrawCommand::Clear(_) => panic!("expected the scene's text"),
    }
}

#[test]
fn tick_draws_before_sampling_input() {
    let mut m = SceneManager::new(fonts());
    m.input_state.load_scan_code_mapping(20, 0);
    let mut s1 = Surface::new();
    m.update(&mut s1, 16_000, &vec![Event::KeyPressed { scan: 20 }]);
    // The frame drawn during the same tick still shows the prior state.
    assert_eq!(text_contents(&s1), vec!["No last press".to_string()]);
    let mut s2 = Surface::new();
    m.update(&mut s2, 16_000, &vec![]);
    assert_eq!(text_contents(&s2), vec!["main: true wheel: 0 fps: 0".to_string()]);
}

#[test]
fn pressed_slot_persists_until_release() {
    let mut m = SceneManager::new(fonts());
    m.input_state.load_mouse_button_mapping(0, 0);
    let mut s = Surface::new();
    m.update(&mut s, 10_000, &vec![Event::MouseButtonPressed { button: 0 }]);
    assert!(m.input_state.get_key_state(0));
    // Intervening ticks without events keep the slot pressed.
    m.update(&mut s, 10_000, &vec![]);
    m.update(&mut s, 10_000, &vec![]);
    assert!(m.input_state.get_key_state(0));
    m.update(&mut s, 10_000, &vec![Event::MouseButtonReleased { button: 0 }]);
    assert!(!m.input_state.get_key_state(0));
}

#[test]
fn frame_rate_window_publishes_estimate() {
    let f = fonts();
    let mut scene = (PreInitializedTestScene {}).init_graphics(&f);
    let input = InputState::new();
    for _ in 0..61 {
        let r = scene.update_state(&input, 50_000, 0);
        assert!(matches!(r, UpdateSceneResult::Continue));
    }
    // Sixty frames of 50 ms each: 3 seconds for 60 frames.
    assert_eq!(scene.fps, 180);
    assert_eq!(
        scene.graphics.text.content,
        "main: false wheel: 0 fps: 180".to_string()
    );
}

#[test]
fn overlay_is_realized_around_outgoing_scene() {
    let mut m = SceneManager::new(fonts());
    m.input_state.load_scan_code_mapping(40, 2);
    m.input_state.load_scan_code_mapping(41, 1);

    let mut s1 = Surface::new();
    m.update(&mut s1, 16_000, &vec![Event::KeyPressed { scan: 40 }]);
    assert!(m.is_running());

    // The overlay now embeds the outgoing scene: every draw renders the
    // predecessor's content first, then the overlay's, until it leaves.
    let mut s2 = Surface::new();
    m.update(&mut s2, 16_000, &vec![Event::KeyReleased { scan: 40 }]);
    assert_eq!(
        text_contents(&s2),
        vec![
            "main: false wheel: 0 fps: 0".to_string(),
            "Deep Scene!".to_string(),
        ]
    );

    let mut s3 = Surface::new();
    m.update(&mut s3, 16_000, &vec![Event::KeyPressed { scan: 41 }]);
    assert_eq!(
        text_contents(&s3),
        vec![
            "main: false wheel: 0 fps: 0".to_string(),
            "Deep Scene!".to_string(),
        ]
    );

    // The release slot hands the embedded scene back to the orchestrator.
    let mut s4 = Surface::new();
    m.update(&mut s4, 16_000, &vec![]);
    assert_eq!(text_contents(&s4), vec!["main: false wheel: 0 fps: 0".to_string()]);
    assert!(m.is_running());
}

#[test]
fn input_state_accessor_configures_mappings() {
    let mut m = SceneManager::new(fonts());
    m.temp_get_input_state().load_scan_code_mapping(25, 0);
    m.temp_get_input_state().load_mouse_button_mapping(1, 3);
    assert_eq!(m.input_state.get_key_index_from_scan_code(25), 0);
    assert_eq!(m.input_state.get_key_index_from_mouse_button(1), 3);
}

#[test]
fn close_event_stops_the_run_loop() {
    let mut m = SceneManager::new(fonts());
    let mut s1 = Surface::new();
    m.update(&mut s1, 10_000, &vec![Event::Closed]);
    assert!(!m.is_running());
    // The frame that received the close was still drawn.
    assert_eq!(s1.commands.len(), 2);
    // A stopped orchestrator does nothing.
    let mut s2 = Surface::new();
    m.update(&mut s2, 10_000, &vec![]);
    assert!(s2.commands.is_empty());
}

#[test]
fn unrecognized_events_do_not_stop_the_loop() {
    let mut m = SceneManager::new(fonts());
    let mut s = Surface::new();
    m.update(&mut s, 10_000, &vec![Event::Unrecognized]);
    assert!(m.is_running());
}

#[test]
fn void_scene_is_inert() {
    let mut v = VoidScene {};
    let mut surface = Surface::new();
    v.draw(&mut surface);
    assert!(surface.commands.is_empty());
    let input = InputState::new();
    let r = v.update_state(&input, 1, 1);
    assert!(matches!(r, UpdateSceneResult::Continue));
    let mut s = Scene::Void(VoidScene {});
    s.start_animations();
    let mut surface2 = Surface::new();
    s.draw(&mut surface2);
    assert!(surface2.commands.is_empty());
}
