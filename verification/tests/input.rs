use bevy::input::keyboard::KeyCode;
use bevy::input::mouse::MouseButton;
use bevy::input::ButtonInput;
use editor_flycam::flycam::{frame_active, Activation, FlycamOptions};
use editor_flycam::input::{read_keys, KeyState, PointerButton};

fn no_keys() -> KeyState {
    KeyState {
        forward: false,
        back: false,
        left: false,
        right: false,
        up: false,
        down: false,
        sprint: false,
    }
}

fn keyboard(held: &[KeyCode]) -> ButtonInput<KeyCode> {
    let mut input = ButtonInput::default();
    for key in held {
        input.press(*key);
    }
    input
}

fn mouse(held: &[MouseButton]) -> ButtonInput<MouseButton> {
    let mut input = ButtonInput::default();
    for button in held {
        input.press(*button);
    }
    input
}

#[test]
fn an_idle_keyboard_reads_as_no_keys() {
    assert_eq!(read_keys(&keyboard(&[])), no_keys());
}

#[test]
fn each_steering_key_sets_its_own_flag() {
    assert_eq!(read_keys(&keyboard(&[KeyCode::KeyW])), KeyState { forward: true, ..no_keys() });
    assert_eq!(read_keys(&keyboard(&[KeyCode::KeyS])), KeyState { back: true, ..no_keys() });
    assert_eq!(read_keys(&keyboard(&[KeyCode::KeyA])), KeyState { left: true, ..no_keys() });
    assert_eq!(read_keys(&keyboard(&[KeyCode::KeyD])), KeyState { right: true, ..no_keys() });
    assert_eq!(read_keys(&keyboard(&[KeyCode::KeyE])), KeyState { up: true, ..no_keys() });
    assert_eq!(read_keys(&keyboard(&[KeyCode::KeyQ])), KeyState { down: true, ..no_keys() });
}

#[test]
fn either_shift_key_means_sprint() {
    assert_eq!(read_keys(&keyboard(&[KeyCode::ShiftLeft])), KeyState { sprint: true, ..no_keys() });
    assert_eq!(read_keys(&keyboard(&[KeyCode::ShiftRight])), KeyState { sprint: true, ..no_keys() });
    assert_eq!(
        read_keys(&keyboard(&[KeyCode::ShiftLeft, KeyCode::ShiftRight])),
        KeyState { sprint: true, ..no_keys() }
    );
}

#[test]
fn other_keys_are_not_read() {
    let input = keyboard(&[KeyCode::KeyX, KeyCode::Space, KeyCode::ArrowUp, KeyCode::ControlLeft]);
    assert_eq!(read_keys(&input), no_keys());
}

#[test]
fn a_released_key_is_no_longer_held() {
    let mut input = keyboard(&[KeyCode::KeyW, KeyCode::KeyD]);
    input.release(KeyCode::KeyW);
    assert_eq!(read_keys(&input), KeyState { right: true, ..no_keys() });
}

#[test]
fn several_keys_at_once() {
    let input = keyboard(&[KeyCode::KeyW, KeyCode::KeyA, KeyCode::KeyE, KeyCode::ShiftRight]);
    assert_eq!(
        read_keys(&input),
        KeyState { forward: true, left: true, up: true, sprint: true, ..no_keys() }
    );
}

#[test]
fn the_editor_controller_is_active_while_the_right_button_is_held() {
    let editor = FlycamOptions::editor();
    assert!(!frame_active(&editor, &mouse(&[])));
    assert!(frame_active(&editor, &mouse(&[MouseButton::Right])));
    assert!(!frame_active(&editor, &mouse(&[MouseButton::Left, MouseButton::Middle])));
    assert!(frame_active(&editor, &mouse(&[MouseButton::Left, MouseButton::Right])));
}

#[test]
fn a_controller_is_gated_by_the_button_it_names() {
    let gated = |button| FlycamOptions {
        activation: Activation::RequiresButton(button),
        sprint: false,
        cursor_lock: false,
    };
    assert!(frame_active(&gated(PointerButton::Left), &mouse(&[MouseButton::Left])));
    assert!(!frame_active(&gated(PointerButton::Left), &mouse(&[MouseButton::Right])));
    assert!(frame_active(&gated(PointerButton::Middle), &mouse(&[MouseButton::Middle])));
    assert!(!frame_active(&gated(PointerButton::Middle), &mouse(&[MouseButton::Left])));
    assert!(!frame_active(&gated(PointerButton::Right), &mouse(&[MouseButton::Back])));
}

#[test]
fn an_always_on_controller_is_active_whatever_is_held() {
    let plain = FlycamOptions::always_on();
    assert!(frame_active(&plain, &mouse(&[])));
    assert!(frame_active(&plain, &mouse(&[MouseButton::Right])));
}
