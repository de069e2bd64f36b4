//! The pointer while a camera is being steered.
//!
//! A controller that locks the cursor leaves the pointer hidden and locked
//! after every frame in which a camera was steered, and visible and free after
//! every other frame. It writes to the window only where the pointer is not
//! already in that state, so a run of frames costs one write for each change
//! between steering and not steering.

use vstd::prelude::*;
use crate::flycam::FlycamOptions;

verus! {

/// How the window holds on to the pointer.
#[derive(Clone, Copy, Debug, PartialEq, Eq, Structural)]
pub enum GrabMode {
    /// The pointer may leave the window.
    Free,
    /// The pointer is kept within the window. The controller never asks for
    /// this mode; where it locks the cursor and finds the pointer so, its
    /// next frame replaces the mode by the one the frame calls for.
    Confined,
    /// The pointer is held in place.
    Locked,
}

/// The window's pointer settings.
#[derive(Clone, Copy, Debug, PartialEq, Eq, Structural)]
pub struct CursorState {
    pub visible: bool,
    pub grab_mode: GrabMode,
}

impl CursorState {
    /// The pointer as the controller leaves it after a frame in which a
    /// camera was steered: hidden and locked.
    pub open spec fn captured() -> CursorState {
        CursorState { visible: false, grab_mode: GrabMode::Locked }
    }

    /// The pointer as the controller leaves it after any other frame: visible
    /// and free.
    pub open spec fn released() -> CursorState {
        CursorState { visible: true, grab_mode: GrabMode::Free }
    }

    /// Whether the pointer is hidden and locked.
    pub open spec fn is_captured(self) -> bool {
        self == CursorState::captured()
    }

    /// The state that a frame calls for, given whether a camera was steered
    /// in it.
    pub open spec fn called_for(steering: bool) -> CursorState {
        if steering {
            CursorState::captured()
        } else {
            CursorState::released()
        }
    }
}

/// What the controller writes to the window, if anything, given whether a
/// camera was steered in this frame and how the pointer stands: the state the
/// frame calls for, unless the pointer is in it already or the controller
/// does not lock the cursor.
pub open spec fn cursor_write_of(options: FlycamOptions, steering: bool, cursor: CursorState) -> Option<
    CursorState,
> {
    if options.cursor_lock && cursor != CursorState::called_for(steering) {
        Some(CursorState::called_for(steering))
    } else {
        None
    }
}

/// The pointer settings after a frame.
pub open spec fn synced(options: FlycamOptions, steering: bool, cursor: CursorState) -> CursorState {
    match cursor_write_of(options, steering, cursor) {
        Some(written) => written,
        None => cursor,
    }
}

/// Computes [`cursor_write_of`].
pub fn cursor_write(options: &FlycamOptions, steering: bool, cursor: &CursorState) -> (write: Option<
    CursorState,
>)
    ensures
        write == cursor_write_of(*options, steering, *cursor),
{
    if !options.cursor_lock {
        return None;
    }
    if steering {
        let captured = !cursor.visible && match cursor.grab_mode {
            GrabMode::Locked => true,
            _ => false,
        };
        if captured {
            None
        } else {
            Some(CursorState { visible: false, grab_mode: GrabMode::Locked })
        }
    } else {
        let released = cursor.visible && match cursor.grab_mode {
            GrabMode::Free => true,
            _ => false,
        };
        if released {
            None
        } else {
            Some(CursorState { visible: true, grab_mode: GrabMode::Free })
        }
    }
}

/// Brings the pointer in line with whether a camera was steered in this
/// frame. Returns whether it wrote.
///
/// A controller that locks the cursor leaves the pointer hidden and locked
/// after a frame that steered a camera and visible and free after any other,
/// whatever state it found, and writes exactly when that changes the state.
/// One that does not lock the cursor leaves the pointer as it is.
pub fn sync_cursor(options: &FlycamOptions, steering: bool, cursor: &mut CursorState) -> (wrote:
    bool)
    ensures
        options.cursor_lock ==> *final(cursor) == CursorState::called_for(steering),
        !options.cursor_lock ==> *final(cursor) == *old(cursor),
        wrote == (options.cursor_lock && *old(cursor) != *final(cursor)),
        wrote == cursor_write_of(*options, steering, *old(cursor)).is_some(),
        *final(cursor) == synced(*options, steering, *old(cursor)),
{
    match cursor_write(options, steering, cursor) {
        Some(written) => {
            *cursor = written;
            true
        },
        None => false,
    }
}

/// The pointer settings after a run of frames, each given by whether a camera
/// was steered in it.
pub open spec fn cursor_after(options: FlycamOptions, start: CursorState, frames: Seq<bool>) -> CursorState
    decreases frames.len(),
{
    if frames.len() == 0 {
        start
    } else {
        synced(options, frames.last(), cursor_after(options, start, frames.drop_last()))
    }
}

/// The number of writes that a run of frames makes.
pub open spec fn writes_during(options: FlycamOptions, start: CursorState, frames: Seq<bool>) -> nat
    decreases frames.len(),
{
    if frames.len() == 0 {
        0
    } else {
        let before = cursor_after(options, start, frames.drop_last());
        let here: nat = if cursor_write_of(options, frames.last(), before).is_some() {
            1
        } else {
            0
        };
        writes_during(options, start, frames.drop_last()) + here
    }
}

/// The number of frames in a run that differ from the frame before them, the
/// first one being held against `status`.
pub open spec fn status_changes(status: bool, frames: Seq<bool>) -> nat
    decreases frames.len(),
{
    if frames.len() == 0 {
        0
    } else {
        let earlier = frames.drop_last();
        let previous = if earlier.len() == 0 {
            status
        } else {
            earlier.last()
        };
        let here: nat = if frames.last() != previous {
            1
        } else {
            0
        };
        status_changes(status, earlier) + here
    }
}

/// A second frame with the same status writes nothing and changes nothing.
pub proof fn lemma_sync_is_idempotent(options: FlycamOptions, steering: bool, cursor: CursorState)
    ensures
        cursor_write_of(options, steering, synced(options, steering, cursor)).is_none(),
        synced(options, steering, synced(options, steering, cursor)) == synced(
            options,
            steering,
            cursor,
        ),
{
}

/// Over any run of frames that starts from a state the controller itself
/// leaves behind, a controller that locks the cursor writes once for every
/// frame whose status differs from the status of the frame before it, and not
/// at all otherwise; after the run the pointer is captured exactly if the last
/// frame steered a camera.
pub proof fn lemma_one_write_per_status_change(
    options: FlycamOptions,
    start: CursorState,
    frames: Seq<bool>,
)
    requires
        options.cursor_lock,
        start == CursorState::captured() || start == CursorState::released(),
    ensures
        writes_during(options, start, frames) == status_changes(start.is_captured(), frames),
        frames.len() > 0 ==> cursor_after(options, start, frames) == CursorState::called_for(
            frames.last(),
        ),
        frames.len() > 0 ==> cursor_after(options, start, frames).is_captured() == frames.last(),
    decreases frames.len(),
{
    if frames.len() > 0 {
        lemma_one_write_per_status_change(options, start, frames.drop_last());
    }
}

/// From a state that the controller does not leave behind itself, the first
/// frame of a controller that locks the cursor always writes, and leaves the
/// state that the frame calls for.
pub proof fn lemma_foreign_state_is_replaced(
    options: FlycamOptions,
    steering: bool,
    cursor: CursorState,
)
    requires
        options.cursor_lock,
        cursor != CursorState::captured(),
        cursor != CursorState::released(),
    ensures
        cursor_write_of(options, steering, cursor) == Some(CursorState::called_for(steering)),
        synced(options, steering, cursor) == CursorState::called_for(steering),
{
}

/// A controller that does not lock the cursor never writes to it.
pub proof fn lemma_no_lock_no_write(options: FlycamOptions, start: CursorState, frames: Seq<bool>)
    requires
        !options.cursor_lock,
    ensures
        writes_during(options, start, frames) == 0,
        cursor_after(options, start, frames) == start,
    decreases frames.len(),
{
    if frames.len() > 0 {
        lemma_no_lock_no_write(options, start, frames.drop_last());
    }
}

} // verus!
