use tamarindo_engine::input::{InputAction, InputManager, Key};

#[test]
fn press_sets_current_state_and_edge() {
    let mut input = InputManager::new();
    assert_eq!(input.process_key(Key::KeyW, true), InputAction::Handled);
    assert!(input.is_key_pressed(Key::KeyW));
    assert!(input.was_key_pressed_this_frame(Key::KeyW));
    assert!(!input.was_key_released_this_frame(Key::KeyW));
}

#[test]
fn snapshot_clears_edge_but_keeps_state() {
    let mut input = InputManager::new();
    input.process_key(Key::KeyA, true);
    input.clear_frame_state();
    assert!(input.is_key_pressed(Key::KeyA));
    assert!(!input.was_key_pressed_this_frame(Key::KeyA));
}

#[test]
fn release_after_snapshot_is_a_release_edge() {
    let mut input = InputManager::new();
    input.process_key(Key::KeyD, true);
    input.clear_frame_state();
    assert_eq!(input.process_key(Key::KeyD, false), InputAction::Handled);
    assert!(!input.is_key_pressed(Key::KeyD));
    assert!(input.was_key_released_this_frame(Key::KeyD));
}

#[test]
fn escape_press_signals_exit_and_is_not_recorded() {
    let mut input = InputManager::new();
    assert_eq!(input.process_key(Key::Escape, true), InputAction::Exit);
    assert!(!input.is_key_pressed(Key::Escape));
}

#[test]
fn escape_release_is_recorded_normally() {
    let mut input = InputManager::new();
    assert_eq!(input.process_key(Key::Escape, false), InputAction::Handled);
    assert!(!input.is_key_pressed(Key::Escape));
}

#[test]
fn keys_are_tracked_independently() {
    let mut input = InputManager::new();
    input.process_key(Key::KeyW, true);
    input.process_key(Key::KeyQ, true);
    input.process_key(Key::KeyW, false);
    assert!(!input.is_key_pressed(Key::KeyW));
    assert!(input.is_key_pressed(Key::KeyQ));
    assert!(!input.is_key_pressed(Key::KeyE));
}
