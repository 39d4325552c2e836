use scene_core::input_state::{Event, InputState, Wheel, MAX_KEY_STATE, MAX_SCAN_CODE_MAPPING};

#[test]
fn unmapped_code_is_safe_noop() {
    let mut s = InputState::new();
    // The event is recognized and consumed even though the code is unmapped.
    assert!(s.on_event(Event::KeyPressed { scan: 12 }));
    // The derived virtual index is the sentinel, and it always reads false.
    assert_eq!(s.get_key_index_from_scan_code(12), MAX_KEY_STATE);
    assert!(!s.get_key_state(MAX_KEY_STATE));
    for slot in 0..MAX_KEY_STATE {
        assert!(!s.get_key_state(slot));
    }
}

#[test]
fn out_of_range_codes_derive_sentinel() {
    let s = InputState::new();
    assert_eq!(s.get_key_index_from_scan_code(MAX_SCAN_CODE_MAPPING), MAX_KEY_STATE);
    assert_eq!(s.get_key_index_from_scan_code(usize::MAX), MAX_KEY_STATE);
    assert_eq!(s.get_key_index_from_mouse_button(5), MAX_KEY_STATE);
}

#[test]
fn fresh_frame_clears_transients() {
    let mut s = InputState::new();
    s.on_event(Event::MouseWheelScrolled { wheel: Wheel::VerticalWheel, delta: 3 });
    s.on_event(Event::TextEntered { unicode: 'a' });
    s.on_event(Event::TextEntered { unicode: 'b' });
    assert_eq!(s.get_wheel_delta(), 3);
    assert_eq!(s.get_input_chars(), &vec!['a', 'b']);
    s.clear_state();
    assert_eq!(s.get_wheel_delta(), 0);
    assert!(s.get_input_chars().is_empty());
}

#[test]
fn remap_second_wins() {
    let mut s = InputState::new();
    s.load_scan_code_mapping(10, 1);
    s.load_scan_code_mapping(10, 4);
    assert_eq!(s.get_key_index_from_scan_code(10), 4);
    s.on_event(Event::KeyPressed { scan: 10 });
    assert!(s.get_key_state(4));
    assert!(!s.get_key_state(1));
}

#[test]
fn mapping_round_trip() {
    let mut s = InputState::new();
    s.load_scan_code_mapping(30, 2);
    assert!(s.on_event(Event::KeyPressed { scan: 30 }));
    assert!(s.get_key_state(2));
    assert!(s.on_event(Event::KeyReleased { scan: 30 }));
    assert!(!s.get_key_state(2));
}

#[test]
fn out_of_range_configuration_is_rejected_silently() {
    let mut s = InputState::new();
    s.load_scan_code_mapping(MAX_SCAN_CODE_MAPPING, 1);
    s.load_scan_code_mapping(5, MAX_KEY_STATE);
    assert_eq!(s.get_key_index_from_scan_code(5), MAX_KEY_STATE);
    s.load_mouse_button_mapping(7, 1);
    s.load_mouse_button_mapping(0, 20);
    assert_eq!(s.get_key_index_from_mouse_button(0), MAX_KEY_STATE);
}

#[test]
fn bulk_tables_clamp_oversized_entries() {
    let mut s = InputState::new();
    let mut table = vec![0usize; MAX_SCAN_CODE_MAPPING];
    table[3] = 7;
    table[4] = 99;
    s.load_scan_code_table(table);
    assert_eq!(s.get_key_index_from_scan_code(3), 7);
    assert_eq!(s.get_key_index_from_scan_code(4), MAX_KEY_STATE);
    assert_eq!(s.get_key_index_from_scan_code(0), 0);
    s.load_mouse_button_table(vec![1, 2, 3, 200, 4]);
    assert_eq!(s.get_key_index_from_mouse_button(3), MAX_KEY_STATE);
    assert_eq!(s.get_key_index_from_mouse_button(1), 2);
}

#[test]
fn wheel_axis_filtering() {
    let mut s = InputState::new();
    assert!(!s.on_event(Event::MouseWheelScrolled { wheel: Wheel::HorizontalWheel, delta: 9 }));
    assert_eq!(s.get_wheel_delta(), 0);
    assert!(s.on_event(Event::MouseWheelScrolled { wheel: Wheel::VerticalWheel, delta: -2 }));
    assert_eq!(s.get_wheel_delta(), -2);
}

#[test]
fn later_wheel_event_in_a_frame_wins() {
    let mut s = InputState::new();
    s.on_event(Event::MouseWheelScrolled { wheel: Wheel::VerticalWheel, delta: 2 });
    s.on_event(Event::MouseWheelScrolled { wheel: Wheel::VerticalWheel, delta: 5 });
    assert_eq!(s.get_wheel_delta(), 5);
}

#[test]
fn pointer_moves_overwrite_coordinates() {
    let mut s = InputState::new();
    assert_eq!((s.get_mouse_x(), s.get_mouse_y()), (0, 0));
    assert!(s.on_event(Event::MouseMoved { x: 17, y: -4 }));
    assert_eq!((s.get_mouse_x(), s.get_mouse_y()), (17, -4));
    // Unrelated events leave the pointer where it was.
    s.on_event(Event::TextEntered { unicode: 'z' });
    s.clear_state();
    assert_eq!((s.get_mouse_x(), s.get_mouse_y()), (17, -4));
}

#[test]
fn unhandled_event_classes_are_reported_unmatched() {
    let mut s = InputState::new();
    assert!(!s.on_event(Event::Closed));
    assert!(!s.on_event(Event::Unrecognized));
}

#[test]
fn button_mapping_round_trip() {
    let mut s = InputState::new();
    s.load_mouse_button_mapping(0, 3);
    assert!(s.on_event(Event::MouseButtonPressed { button: 0 }));
    assert!(s.get_key_state(3));
    assert!(s.on_event(Event::MouseButtonReleased { button: 0 }));
    assert!(!s.get_key_state(3));
}
