//! The free-look camera controller.
//!
//! A frame goes through the same stages for every camera: decide whether the
//! controller is active, read the movement intent off the keys, and then, for
//! each enabled camera, turn it and move it along the axes it has after the
//! turn. Turning and moving are real-valued and belong to the host, which
//! hands them in as two functions; everything that is decided is decided here.

use vstd::prelude::*;
use bevy::input::ButtonInput;
use bevy::input::keyboard::KeyCode;
use bevy::input::mouse::MouseButton;
use crate::cursor::{cursor_write_of, sync_cursor, synced, CursorState};
use crate::input::{button_held, held_buttons, held_keys, key_state, read_keys, KeyState, PointerButton};

verus! {

/// What a camera carries to be steered. `S` is the host's scalar type.
#[derive(Debug, PartialEq)]
pub struct Flycam<S> {
    /// A camera that is not enabled is passed over, whatever the input.
    pub enabled: bool,
    /// Distance per second at a speed multiplier of one.
    pub move_speed: S,
    /// Angle per unit of pointer motion.
    pub mouse_sensitivity: S,
}

impl<S: Copy> Clone for Flycam<S> {
    fn clone(&self) -> (copy: Self)
        ensures
            copy == *self,
    {
        *self
    }
}

impl<S: Copy> Copy for Flycam<S> {

}

impl<S> Flycam<S> {
    /// An enabled camera with the given speeds.
    pub fn new(move_speed: S, mouse_sensitivity: S) -> (flycam: Self)
        ensures
            flycam == (Flycam { enabled: true, move_speed, mouse_sensitivity }),
    {
        Flycam { enabled: true, move_speed, mouse_sensitivity }
    }
}

/// When the controller takes part in a frame.
#[derive(Clone, Copy, Debug, PartialEq, Eq, Structural)]
pub enum Activation {
    /// In every frame.
    AlwaysOn,
    /// Only while the given pointer button is held.
    RequiresButton(PointerButton),
}

/// The ways in which controllers differ from one another.
#[derive(Clone, Copy, Debug, PartialEq, Eq, Structural)]
pub struct FlycamOptions {
    pub activation: Activation,
    /// Whether holding shift doubles the speed.
    pub sprint: bool,
    /// Whether the pointer is captured while a camera is being steered.
    pub cursor_lock: bool,
}

impl FlycamOptions {
    /// The editor's controller: steered while the right button is held, with
    /// sprint, and with the pointer captured meanwhile.
    pub fn editor() -> (options: Self)
        ensures
            options == (FlycamOptions {
                activation: Activation::RequiresButton(PointerButton::Right),
                sprint: true,
                cursor_lock: true,
            }),
    {
        FlycamOptions {
            activation: Activation::RequiresButton(PointerButton::Right),
            sprint: true,
            cursor_lock: true,
        }
    }

    /// The plain controller: always steered, without sprint, and leaving the
    /// pointer alone.
    pub fn always_on() -> (options: Self)
        ensures
            options == (FlycamOptions {
                activation: Activation::AlwaysOn,
                sprint: false,
                cursor_lock: false,
            }),
    {
        FlycamOptions { activation: Activation::AlwaysOn, sprint: false, cursor_lock: false }
    }
}

/// Whether a controller with `activation` is active while exactly the buttons
/// in `held` are down.
pub open spec fn active_when(activation: Activation, held: Set<PointerButton>) -> bool {
    match activation {
        Activation::AlwaysOn => true,
        Activation::RequiresButton(button) => held.contains(button),
    }
}

/// Decides from the engine's mouse state whether the controller is active in
/// this frame.
pub fn frame_active(options: &FlycamOptions, buttons: &ButtonInput<MouseButton>) -> (active: bool)
    ensures
        active == active_when(options.activation, held_buttons(*buttons)),
{
    match options.activation {
        Activation::AlwaysOn => true,
        Activation::RequiresButton(button) => button_held(buttons, button),
    }
}

/// The pull of two opposed keys: `1` when only the positive one is held, `-1`
/// when only the negative one is held, `0` when both or neither are.
pub open spec fn axis_value(positive: bool, negative: bool) -> int {
    (if positive { 1int } else { 0int }) - (if negative { 1int } else { 0int })
}

/// Computes [`axis_value`].
pub fn axis(positive: bool, negative: bool) -> (pull: i8)
    ensures
        pull == axis_value(positive, negative),
{
    let p: i8 = if positive { 1 } else { 0 };
    let n: i8 = if negative { 1 } else { 0 };
    p - n
}

/// Where the keys ask the camera to go, along the camera's own axes.
#[derive(Clone, Copy, Debug, PartialEq, Eq, Structural)]
pub struct MoveIntent {
    /// Along the camera's right axis.
    pub x: i8,
    /// Along the camera's up axis.
    pub y: i8,
    /// Along the camera's view direction.
    pub z: i8,
}

/// The intent that a key state stands for.
pub open spec fn intent_of(keys: KeyState) -> MoveIntent {
    MoveIntent {
        x: axis_value(keys.right, keys.left) as i8,
        y: axis_value(keys.up, keys.down) as i8,
        z: axis_value(keys.forward, keys.back) as i8,
    }
}

/// Reads the movement intent off the keys. Each component is `-1`, `0` or `1`.
pub fn move_intent(keys: &KeyState) -> (intent: MoveIntent)
    ensures
        intent == intent_of(*keys),
        -1 <= intent.x <= 1 && -1 <= intent.y <= 1 && -1 <= intent.z <= 1,
        intent.x == axis_value(keys.right, keys.left),
        intent.y == axis_value(keys.up, keys.down),
        intent.z == axis_value(keys.forward, keys.back),
{
    MoveIntent {
        x: axis(keys.right, keys.left),
        y: axis(keys.up, keys.down),
        z: axis(keys.forward, keys.back),
    }
}

/// The factor on the speed: two while sprinting, where the controller has
/// sprint at all, and one otherwise.
pub open spec fn multiplier_of(options: FlycamOptions, keys: KeyState) -> int {
    if options.sprint && keys.sprint {
        2
    } else {
        1
    }
}

/// Computes [`multiplier_of`].
pub fn speed_multiplier(options: &FlycamOptions, keys: &KeyState) -> (factor: u8)
    ensures
        factor == multiplier_of(*options, *keys),
{
    if options.sprint && keys.sprint {
        2
    } else {
        1
    }
}

/// What one frame asks of every camera that takes part in it.
#[derive(Clone, Copy, Debug, PartialEq, Eq, Structural)]
pub struct Motion {
    pub intent: MoveIntent,
    pub speed_multiplier: u8,
}

impl Motion {
    /// The displacement along the camera's axes, in units of the camera's
    /// speed times the frame's duration.
    pub open spec fn local_step(self) -> (int, int, int) {
        (
            self.intent.x * self.speed_multiplier,
            self.intent.y * self.speed_multiplier,
            self.intent.z * self.speed_multiplier,
        )
    }
}

/// The motion that a key state stands for under `options`.
pub open spec fn motion_of(options: FlycamOptions, keys: KeyState) -> Motion {
    Motion { intent: intent_of(keys), speed_multiplier: multiplier_of(options, keys) as u8 }
}

/// Holding shift doubles the displacement of a frame, where the controller
/// has sprint: with all other keys the same, the speed multiplier is twice
/// what it is without shift, the intent is the same, and so the step along
/// each of the camera's axes is twice as long.
pub proof fn lemma_sprint_doubles_step(options: FlycamOptions, keys: KeyState)
    requires
        options.sprint,
    ensures
        ({
            let walking = motion_of(options, KeyState { sprint: false, ..keys });
            let sprinting = motion_of(options, KeyState { sprint: true, ..keys });
            &&& sprinting.intent == walking.intent
            &&& sprinting.speed_multiplier == 2 * walking.speed_multiplier
            &&& sprinting.local_step().0 == 2 * walking.local_step().0
            &&& sprinting.local_step().1 == 2 * walking.local_step().1
            &&& sprinting.local_step().2 == 2 * walking.local_step().2
        }),
{
}

/// Keys that cancel one another, or no keys at all, ask for no displacement,
/// with or without shift: a camera steered in such a frame is only turned.
pub proof fn lemma_balanced_keys_ask_for_no_step(options: FlycamOptions, keys: KeyState)
    requires
        keys.right == keys.left,
        keys.up == keys.down,
        keys.forward == keys.back,
    ensures
        motion_of(options, keys).intent == (MoveIntent { x: 0, y: 0, z: 0 }),
        motion_of(options, keys).local_step() == (0int, 0int, 0int),
{
    let motion = motion_of(options, keys);
    assert(motion.intent.x * motion.speed_multiplier == 0 && motion.intent.y
        * motion.speed_multiplier == 0 && motion.intent.z * motion.speed_multiplier == 0)
        by (nonlinear_arith)
        requires
            motion.intent.x == 0,
            motion.intent.y == 0,
            motion.intent.z == 0,
    ;
}

/// Without sprint, shift makes no difference to a frame.
pub proof fn lemma_no_sprint_ignores_shift(options: FlycamOptions, keys: KeyState)
    requires
        !options.sprint,
    ensures
        motion_of(options, KeyState { sprint: true, ..keys }) == motion_of(
            options,
            KeyState { sprint: false, ..keys },
        ),
{
}

/// A controller that is always on is active whatever buttons are held, and
/// one that requires a button is active exactly while that button is held.
pub proof fn lemma_activation(options: FlycamOptions, held: Set<PointerButton>)
    ensures
        options.activation is AlwaysOn ==> active_when(options.activation, held),
        options.activation matches Activation::RequiresButton(button) ==> (active_when(
            options.activation,
            held,
        ) <==> held.contains(button)),
{
}

/// Computes [`motion_of`].
pub fn frame_motion(options: &FlycamOptions, keys: &KeyState) -> (motion: Motion)
    ensures
        motion == motion_of(*options, *keys),
{
    Motion { intent: move_intent(keys), speed_multiplier: speed_multiplier(options, keys) }
}

/// A camera as the controller sees it: its settings, and the position and
/// orientation that the host keeps for it. `T` is the host's transform type.
#[derive(Debug, PartialEq)]
pub struct Camera<S, T> {
    pub flycam: Flycam<S>,
    pub transform: T,
}

impl<S: Copy, T: Copy> Clone for Camera<S, T> {
    fn clone(&self) -> (copy: Self)
        ensures
            copy == *self,
    {
        *self
    }
}

impl<S: Copy, T: Copy> Copy for Camera<S, T> {

}

/// Whether `turn` and `travel` accept what steering `camera` hands them:
/// `turn` the camera as it is, and `travel` whatever `turn` makes of it.
pub open spec fn can_steer<S, T, R: Fn(S, T) -> T, M: Fn(S, Motion, T) -> T>(
    turn: R,
    travel: M,
    motion: Motion,
    camera: Camera<S, T>,
) -> bool {
    &&& call_requires(turn, (camera.flycam.mouse_sensitivity, camera.transform))
    &&& forall|turned: T| #[trigger]
        call_ensures(turn, (camera.flycam.mouse_sensitivity, camera.transform), turned)
            ==> call_requires(travel, (camera.flycam.move_speed, motion, turned))
}

/// `after` is `before` turned by `turn` and then moved by `travel`: the move
/// starts from the turned camera, so it runs along the axes the camera has
/// after the turn. `turn` is given the camera's pointer sensitivity, `travel`
/// its speed and the frame's motion. The settings stay as they were.
pub open spec fn steered<S, T, R: Fn(S, T) -> T, M: Fn(S, Motion, T) -> T>(
    turn: R,
    travel: M,
    motion: Motion,
    before: Camera<S, T>,
    after: Camera<S, T>,
) -> bool {
    &&& after.flycam == before.flycam
    &&& exists|turned: T|
        #[trigger] call_ensures(turn, (before.flycam.mouse_sensitivity, before.transform), turned)
            && call_ensures(travel, (before.flycam.move_speed, motion, turned), after.transform)
}

/// Whether a camera with the settings `flycam` is steered in a frame: the
/// frame has to be active and the camera enabled.
pub open spec fn takes_part<S>(active: bool, flycam: Flycam<S>) -> bool {
    active && flycam.enabled
}

/// Computes [`takes_part`].
pub fn is_steered<S>(active: bool, flycam: &Flycam<S>) -> (steered: bool)
    ensures
        steered == takes_part(active, *flycam),
{
    active && flycam.enabled
}

/// What a frame makes of one camera: a camera that takes part is [`steered`],
/// and any other camera is left exactly as it was.
pub open spec fn frame_outcome<S, T, R: Fn(S, T) -> T, M: Fn(S, Motion, T) -> T>(
    turn: R,
    travel: M,
    active: bool,
    motion: Motion,
    before: Camera<S, T>,
    after: Camera<S, T>,
) -> bool {
    if takes_part(active, before.flycam) {
        steered(turn, travel, motion, before, after)
    } else {
        after == before
    }
}

/// Whether any of the cameras is enabled.
pub open spec fn any_enabled<S, T>(cameras: Seq<Camera<S, T>>) -> bool {
    exists|i: int| 0 <= i < cameras.len() && (#[trigger] cameras[i]).flycam.enabled
}

/// Whether every enabled camera among `cameras` can be steered.
pub open spec fn can_steer_all<S, T, R: Fn(S, T) -> T, M: Fn(S, Motion, T) -> T>(
    turn: R,
    travel: M,
    motion: Motion,
    cameras: Seq<Camera<S, T>>,
) -> bool {
    forall|i: int|
        0 <= i < cameras.len() && (#[trigger] cameras[i]).flycam.enabled ==> can_steer(
            turn,
            travel,
            motion,
            cameras[i],
        )
}

/// What a frame makes of the cameras: there are as many as before, and each
/// is what [`frame_outcome`] makes of the camera in its place.
pub open spec fn frame_outcomes<S, T, R: Fn(S, T) -> T, M: Fn(S, Motion, T) -> T>(
    turn: R,
    travel: M,
    active: bool,
    motion: Motion,
    before: Seq<Camera<S, T>>,
    after: Seq<Camera<S, T>>,
) -> bool {
    &&& after.len() == before.len()
    &&& forall|i: int|
        0 <= i < before.len() ==> frame_outcome(
            turn,
            travel,
            active,
            motion,
            before[i],
            #[trigger] after[i],
        )
}

/// Steers one camera: turns it, then moves the turned camera.
pub fn steer_camera<S: Copy, T: Copy, R: Fn(S, T) -> T, M: Fn(S, Motion, T) -> T>(
    motion: Motion,
    camera: Camera<S, T>,
    turn: &R,
    travel: &M,
) -> (after: Camera<S, T>)
    requires
        can_steer(*turn, *travel, motion, camera),
    ensures
        steered(*turn, *travel, motion, camera, after),
{
    let turned = turn(camera.flycam.mouse_sensitivity, camera.transform);
    let moved = travel(camera.flycam.move_speed, motion, turned);
    Camera { flycam: camera.flycam, transform: moved }
}

/// Carries one frame out on every camera, given whether the controller is
/// active and what the keys ask for. Returns whether any camera was steered.
///
/// In an inactive frame nothing is touched. In an active one every enabled
/// camera is turned and then moved, in that order, and every disabled camera
/// is left exactly as it was.
pub fn steer_cameras<S: Copy, T: Copy, R: Fn(S, T) -> T, M: Fn(S, Motion, T) -> T>(
    active: bool,
    motion: Motion,
    cameras: &mut Vec<Camera<S, T>>,
    turn: &R,
    travel: &M,
) -> (any_steered: bool)
    requires
        active ==> can_steer_all(*turn, *travel, motion, old(cameras)@),
    ensures
        frame_outcomes(*turn, *travel, active, motion, old(cameras)@, final(cameras)@),
        !active ==> final(cameras)@ == old(cameras)@,
        forall|i: int|
            0 <= i < old(cameras)@.len() && !(#[trigger] old(cameras)@[i]).flycam.enabled
                ==> final(cameras)@[i] == old(cameras)@[i],
        any_steered == (active && any_enabled(old(cameras)@)),
{
    if !active {
        return false;
    }
    let mut any_steered = false;
    let n: usize = cameras.len();
    let mut i: usize = 0;
    while i < n
        invariant
            i <= n,
            n == cameras@.len(),
            n == old(cameras)@.len(),
            can_steer_all(*turn, *travel, motion, old(cameras)@),
            forall|j: int|
                0 <= j < i ==> frame_outcome(
                    *turn,
                    *travel,
                    true,
                    motion,
                    old(cameras)@[j],
                    #[trigger] cameras@[j],
                ),
            forall|j: int| i <= j < n ==> cameras@[j] == old(cameras)@[j],
            any_steered <==> exists|j: int|
                0 <= j < i && (#[trigger] old(cameras)@[j]).flycam.enabled,
        decreases n - i,
    {
        let camera = cameras[i];
        if is_steered(true, &camera.flycam) {
            any_steered = true;
            let after = steer_camera(motion, camera, turn, travel);
            cameras.set(i, after);
        }
        i += 1;
    }
    any_steered
}

/// What a frame did.
#[derive(Clone, Copy, Debug, PartialEq, Eq, Structural)]
pub struct FrameReport {
    /// Whether any camera was steered.
    pub any_steered: bool,
    /// Whether the pointer settings were written.
    pub cursor_written: bool,
}

/// One frame of the controller, given whether it is active and which keys
/// are held.
///
/// Steers the cameras as the keys ask, and then brings the pointer in line
/// with whether any camera was steered. In an inactive frame no camera is
/// touched, and a disabled camera is never touched.
pub fn run_frame<S: Copy, T: Copy, R: Fn(S, T) -> T, M: Fn(S, Motion, T) -> T>(
    options: &FlycamOptions,
    active: bool,
    keys: &KeyState,
    cameras: &mut Vec<Camera<S, T>>,
    cursor: &mut CursorState,
    turn: &R,
    travel: &M,
) -> (report: FrameReport)
    requires
        active ==> can_steer_all(*turn, *travel, motion_of(*options, *keys), old(cameras)@),
    ensures
        frame_outcomes(
            *turn,
            *travel,
            active,
            motion_of(*options, *keys),
            old(cameras)@,
            final(cameras)@,
        ),
        !active ==> final(cameras)@ == old(cameras)@,
        forall|i: int|
            0 <= i < old(cameras)@.len() && !(#[trigger] old(cameras)@[i]).flycam.enabled
                ==> final(cameras)@[i] == old(cameras)@[i],
        report.any_steered == (active && any_enabled(old(cameras)@)),
        options.cursor_lock ==> *final(cursor) == CursorState::called_for(report.any_steered),
        !options.cursor_lock ==> *final(cursor) == *old(cursor),
        report.cursor_written == (options.cursor_lock && *old(cursor) != *final(cursor)),
        report.cursor_written == cursor_write_of(
            *options,
            report.any_steered,
            *old(cursor),
        ).is_some(),
        *final(cursor) == synced(*options, report.any_steered, *old(cursor)),
{
    let motion = frame_motion(options, keys);
    let any_steered = steer_cameras(active, motion, cameras, turn, travel);
    let cursor_written = sync_cursor(options, any_steered, cursor);
    FrameReport { any_steered, cursor_written }
}

/// One frame of the controller, from the engine's button state.
///
/// Decides from the pointer buttons whether the controller is active, reads
/// the steering keys, and runs the frame. The functions handed in must accept
/// every enabled camera with every motion that some state of the keys asks
/// for.
pub fn movement<S: Copy, T: Copy, R: Fn(S, T) -> T, M: Fn(S, Motion, T) -> T>(
    options: &FlycamOptions,
    keys: &ButtonInput<KeyCode>,
    buttons: &ButtonInput<MouseButton>,
    cameras: &mut Vec<Camera<S, T>>,
    cursor: &mut CursorState,
    turn: &R,
    travel: &M,
) -> (report: FrameReport)
    requires
        forall|pressed: KeyState| #[trigger]
            can_steer_all(*turn, *travel, motion_of(*options, pressed), old(cameras)@),
    ensures
        frame_outcomes(
            *turn,
            *travel,
            active_when(options.activation, held_buttons(*buttons)),
            motion_of(*options, key_state(held_keys(*keys))),
            old(cameras)@,
            final(cameras)@,
        ),
        !active_when(options.activation, held_buttons(*buttons)) ==> final(cameras)@ == old(
            cameras,
        )@,
        forall|i: int|
            0 <= i < old(cameras)@.len() && !(#[trigger] old(cameras)@[i]).flycam.enabled
                ==> final(cameras)@[i] == old(cameras)@[i],
        report.any_steered == (active_when(options.activation, held_buttons(*buttons))
            && any_enabled(old(cameras)@)),
        options.cursor_lock ==> *final(cursor) == CursorState::called_for(report.any_steered),
        !options.cursor_lock ==> *final(cursor) == *old(cursor),
        report.cursor_written == (options.cursor_lock && *old(cursor) != *final(cursor)),
        report.cursor_written == cursor_write_of(
            *options,
            report.any_steered,
            *old(cursor),
        ).is_some(),
        *final(cursor) == synced(*options, report.any_steered, *old(cursor)),
{
    let active = frame_active(options, buttons);
    let pressed = read_keys(keys);
    run_frame(options, active, &pressed, cameras, cursor, turn, travel)
}

} // verus!
