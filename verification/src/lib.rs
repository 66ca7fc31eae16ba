//! Decision logic of a free-fly / orbit camera controller.
//!
//! The crate decides, frame by frame, what a camera rig has to do in answer to
//! the user's input: how the speed settings change, when the cursor is locked
//! and pinned, when the rig passes between free flight and orbiting a pivot,
//! and which node takes the frame's rotation, zoom and translation. It moves
//! speeds and cursor points around without ever computing with them, so it is
//! generic in the scalar and point types; the caller carries out the
//! arithmetic that a plan asks for.

pub mod action;
pub mod camera;
pub mod cursor;
pub mod frame;
pub mod speed;
