//! The decisions of a free-look editor camera and of a debug overlay for
//! spatial probes, kept apart from the engine that carries them out.
//!
//! Every frame the camera controller turns button state into a movement
//! intent, picks the cameras that take part, has each of them turned and then
//! moved by the host's own arithmetic, and keeps the pointer captured while a
//! camera is being steered. The overlay decides what is drawn for a probe from
//! the number of things it hit.
//!
//! What is taken on trust is little and stands in two places: [`input`]
//! declares the engine's button state and reads single buttons out of it, and
//! [`spatial_query`] declares the physics engine's hit lists and reads their
//! length. Everything else is proved against the contracts stated here.

pub mod input;
pub mod flycam;
pub mod cursor;
pub mod overlay;
pub mod spatial_query;
