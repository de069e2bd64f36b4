//! The host's button state, read through a handful of trusted declarations.
//!
//! The engine keeps the buttons that are currently down in a `ButtonInput`.
//! This module names what such a value holds, in terms of the few keys and
//! pointer buttons that matter to a camera, and reads it into plain flags.

use vstd::prelude::*;
use bevy::input::ButtonInput;
use bevy::input::keyboard::KeyCode;
use bevy::input::mouse::MouseButton;
use core::hash::Hash;

verus! {

/// Trusted declaration of the engine's `ButtonInput`, taken as opaque.
#[verifier::external_type_specification]
#[verifier::external_body]
#[verifier::reject_recursive_types(T)]
pub struct ExButtonInput<T: Copy + Eq + Hash + Send + Sync + 'static>(ButtonInput<T>);

/// Trusted declaration of the engine's `KeyCode`, taken as opaque.
#[verifier::external_type_specification]
#[verifier::external_body]
pub struct ExKeyCode(KeyCode);

/// Trusted declaration of the engine's `MouseButton`, taken as opaque.
#[verifier::external_type_specification]
#[verifier::external_body]
pub struct ExMouseButton(MouseButton);

/// The keys that steer a camera, by their position on the keyboard.
#[derive(Clone, Copy, Debug, PartialEq, Eq, Structural)]
pub enum Key {
    KeyW,
    KeyA,
    KeyS,
    KeyD,
    KeyQ,
    KeyE,
    ShiftLeft,
    ShiftRight,
}

/// The pointer buttons that can gate a camera.
#[derive(Clone, Copy, Debug, PartialEq, Eq, Structural)]
pub enum PointerButton {
    Left,
    Right,
    Middle,
}

/// The steering keys that `input` records as currently down. It is left
/// without a definition: all that is taken of it is what `key_held` states.
pub uninterp spec fn held_keys(input: ButtonInput<KeyCode>) -> Set<Key>;

/// The pointer buttons that `input` records as currently down. It is left
/// without a definition: all that is taken of it is what `button_held` states.
pub uninterp spec fn held_buttons(input: ButtonInput<MouseButton>) -> Set<PointerButton>;

/// Trusted wrapper of `ButtonInput::pressed` for keys: the answer is whether
/// the engine's key code of the same name as `key` is among the keys that are
/// down. Nothing here is proved; the body is the call.
#[verifier::external_body]
pub(crate) fn key_held(input: &ButtonInput<KeyCode>, key: Key) -> (held: bool)
    ensures
        held == held_keys(*input).contains(key),
{
    input.pressed(match key {
        Key::KeyW => KeyCode::KeyW,
        Key::KeyA => KeyCode::KeyA,
        Key::KeyS => KeyCode::KeyS,
        Key::KeyD => KeyCode::KeyD,
        Key::KeyQ => KeyCode::KeyQ,
        Key::KeyE => KeyCode::KeyE,
        Key::ShiftLeft => KeyCode::ShiftLeft,
        Key::ShiftRight => KeyCode::ShiftRight,
    })
}

/// Trusted wrapper of `ButtonInput::pressed` for pointer buttons: the answer
/// is whether the engine's button of the same name as `button` is among the
/// buttons that are down. Nothing here is proved; the body is the call.
#[verifier::external_body]
pub(crate) fn button_held(input: &ButtonInput<MouseButton>, button: PointerButton) -> (held: bool)
    ensures
        held == held_buttons(*input).contains(button),
{
    input.pressed(match button {
        PointerButton::Left => MouseButton::Left,
        PointerButton::Right => MouseButton::Right,
        PointerButton::Middle => MouseButton::Middle,
    })
}

/// The steering keys as plain flags, one per direction of travel.
#[derive(Clone, Copy, Debug, PartialEq, Eq, Structural)]
pub struct KeyState {
    /// `W`: along the view direction.
    pub forward: bool,
    /// `S`: against the view direction.
    pub back: bool,
    /// `A`: to the camera's left.
    pub left: bool,
    /// `D`: to the camera's right.
    pub right: bool,
    /// `E`: along the camera's up axis.
    pub up: bool,
    /// `Q`: against the camera's up axis.
    pub down: bool,
    /// Either shift key.
    pub sprint: bool,
}

impl KeyState {
    /// Puts the flags together from the state of the eight keys behind them.
    pub fn from_keys(
        key_w: bool,
        key_a: bool,
        key_s: bool,
        key_d: bool,
        key_q: bool,
        key_e: bool,
        shift_left: bool,
        shift_right: bool,
    ) -> (keys: KeyState)
        ensures
            keys == (KeyState {
                forward: key_w,
                back: key_s,
                left: key_a,
                right: key_d,
                up: key_e,
                down: key_q,
                sprint: shift_left || shift_right,
            }),
    {
        KeyState {
            forward: key_w,
            back: key_s,
            left: key_a,
            right: key_d,
            up: key_e,
            down: key_q,
            sprint: shift_left || shift_right,
        }
    }
}

/// The flags that a set of held keys stands for.
pub open spec fn key_state(held: Set<Key>) -> KeyState {
    KeyState {
        forward: held.contains(Key::KeyW),
        back: held.contains(Key::KeyS),
        left: held.contains(Key::KeyA),
        right: held.contains(Key::KeyD),
        up: held.contains(Key::KeyE),
        down: held.contains(Key::KeyQ),
        sprint: held.contains(Key::ShiftLeft) || held.contains(Key::ShiftRight),
    }
}

/// Reads the steering keys out of the engine's keyboard state.
pub fn read_keys(input: &ButtonInput<KeyCode>) -> (keys: KeyState)
    ensures
        keys == key_state(held_keys(*input)),
{
    KeyState::from_keys(
        key_held(input, Key::KeyW),
        key_held(input, Key::KeyA),
        key_held(input, Key::KeyS),
        key_held(input, Key::KeyD),
        key_held(input, Key::KeyQ),
        key_held(input, Key::KeyE),
        key_held(input, Key::ShiftLeft),
        key_held(input, Key::ShiftRight),
    )
}

} // verus!
