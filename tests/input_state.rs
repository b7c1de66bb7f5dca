use sphynx::input::{ElementState, Input, MouseButton};

const KEY_W: u32 = 17;
const KEY_S: u32 = 31;

#[test]
fn press_hold_release_edges() {
    let mut input = Input::new();

    // frame 1: pressed
    input.handle_keyboard(KEY_W, ElementState::Pressed);
    assert!(input.was_key_pressed(KEY_W));
    assert!(input.is_key_down(KEY_W));
    assert!(!input.was_key_released(KEY_W));
    input.clear_frame();

    // frame 2: held
    assert!(!input.was_key_pressed(KEY_W));
    assert!(input.is_key_down(KEY_W));
    assert!(!input.was_key_released(KEY_W));
    input.clear_frame();

    // frame 3: released
    input.handle_keyboard(KEY_W, ElementState::Released);
    assert!(!input.was_key_pressed(KEY_W));
    assert!(!input.is_key_down(KEY_W));
    assert!(input.was_key_released(KEY_W));
    input.clear_frame();

    // frame 4: nothing
    assert!(!input.was_key_pressed(KEY_W));
    assert!(!input.is_key_down(KEY_W));
    assert!(!input.was_key_released(KEY_W));
}

#[test]
fn unknown_keys_and_buttons_are_up() {
    let input = Input::new();
    assert!(!input.is_key_down(KEY_S));
    assert!(!input.was_key_pressed(KEY_S));
    assert!(!input.was_key_released(KEY_S));
    assert!(!input.is_mouse_button_down(MouseButton::Middle));
    assert!(!input.was_mouse_button_pressed(MouseButton::Other(7)));
    assert!(!input.was_mouse_button_released(MouseButton::Right));
}

#[test]
fn mouse_button_edges() {
    let mut input = Input::new();
    input.handle_mouse(MouseButton::Right, ElementState::Pressed);
    assert!(input.is_mouse_button_down(MouseButton::Right));
    assert!(input.was_mouse_button_pressed(MouseButton::Right));
    assert!(!input.is_mouse_button_down(MouseButton::Left));
    input.clear_frame();
    input.handle_mouse(MouseButton::Right, ElementState::Released);
    assert!(input.was_mouse_button_released(MouseButton::Right));
    assert!(!input.was_mouse_button_pressed(MouseButton::Right));
    assert!(!input.is_mouse_button_down(MouseButton::Right));
}

#[test]
fn press_and_release_within_one_frame_leaves_no_edge() {
    let mut input = Input::new();
    input.handle_keyboard(KEY_W, ElementState::Pressed);
    input.handle_keyboard(KEY_W, ElementState::Released);
    assert!(!input.was_key_pressed(KEY_W));
    assert!(!input.was_key_released(KEY_W));
    assert!(!input.is_key_down(KEY_W));
}

#[test]
fn clearing_twice_hides_edges() {
    let mut input = Input::new();
    input.handle_keyboard(KEY_W, ElementState::Pressed);
    input.handle_mouse(MouseButton::Left, ElementState::Pressed);
    input.clear_frame();
    input.clear_frame();
    assert!(!input.was_key_pressed(KEY_W));
    assert!(input.is_key_down(KEY_W));
    assert!(!input.was_mouse_button_pressed(MouseButton::Left));
    assert!(input.is_mouse_button_down(MouseButton::Left));
}

#[test]
fn mouse_button_codes_are_distinct() {
    let buttons = [
        MouseButton::Left,
        MouseButton::Right,
        MouseButton::Middle,
        MouseButton::Back,
        MouseButton::Forward,
        MouseButton::Other(0),
        MouseButton::Other(1),
        MouseButton::Other(u16::MAX),
    ];
    assert_eq!(MouseButton::Right.code(), 1);
    assert_eq!(MouseButton::Other(0).code(), 5);
    assert_eq!(MouseButton::Other(u16::MAX).code(), 5 + u16::MAX as u32);
    for (i, a) in buttons.iter().enumerate() {
        for (j, b) in buttons.iter().enumerate() {
            assert_eq!(a.code() == b.code(), i == j);
        }
    }
}
