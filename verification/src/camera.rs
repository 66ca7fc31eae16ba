//! The tunable parameters of a camera and its per-frame state.
//!
//! Both are generic in the scalar type `S` of speeds and in the point type
//! `P` of cursor positions: the crate copies such values and compares none.

use vstd::prelude::*;

verus! {

/// The settings that shape how a camera behaves.
#[derive(Clone, Copy, Debug, PartialEq)]
pub struct MovableCameraParams<S> {
    /// The speed of a camera that is not in slow mode and has just begun to move.
    pub default_speed: S,
    /// The gain in speed per second while a direction is held.
    pub acceleration: S,
    /// The speed in slow mode.
    pub slow_speed: S,
    /// The distance that one unit of scroll zooms at unit speed.
    pub scroll_snap: S,
}

/// The state of one camera that can fly, turn and orbit.
#[derive(Clone, Copy, Debug, PartialEq)]
pub struct MovableCamera<S, P> {
    /// The current linear speed.
    pub speed: S,
    /// The current multiplier of rotation speed.
    pub angular_speed: S,
    /// Whether slow mode is on.
    pub slow: bool,
    /// Where the cursor was when the secondary button last locked it.
    pub cursor_pos: P,
    /// Whether the camera orbits its pivot (`true`) or flies freely (`false`).
    pub focused: bool,
}

impl<S: Copy, P> MovableCamera<S, P> {
    /// A camera at rest: free, not slow, both speeds at `params.default_speed`.
    pub fn new(params: &MovableCameraParams<S>, cursor_pos: P) -> (cam: Self)
        ensures
            cam.speed == params.default_speed,
            cam.angular_speed == params.default_speed,
            !cam.slow,
            cam.cursor_pos == cursor_pos,
            !cam.focused,
    {
        MovableCamera {
            speed: params.default_speed,
            angular_speed: params.default_speed,
            slow: false,
            cursor_pos,
            focused: false,
        }
    }
}

} // verus!
