//! The per-frame update of a camera's speed settings.

use vstd::prelude::*;
use crate::action::{ActionSnapshot, FlyingCamAction};
use crate::camera::{MovableCamera, MovableCameraParams};

verus! {

impl<S, P> MovableCamera<S, P> {
    /// Whether slow mode is on once the frame's toggle has been taken in:
    /// a press of `AdjustSpeed` in this frame flips it.
    pub open spec fn slow_after(self, actions: ActionSnapshot) -> bool {
        self.slow != actions.just_pressed@.contains(FlyingCamAction::AdjustSpeed)
    }

    /// Whether the frame leaves the speed to grow: the camera is not slow and
    /// a direction is held.
    pub open spec fn ramps(self, actions: ActionSnapshot) -> bool {
        !self.slow_after(actions) && actions.moving()
    }

    /// The value that a speed setting takes in this frame, `current` being its
    /// value before. Slow mode forces `slow_speed`. Otherwise the setting falls
    /// back to `default_speed`, unless a direction is held and slow mode was
    /// already off: then it stays as it is.
    pub open spec fn setting_after(
        self,
        params: MovableCameraParams<S>,
        actions: ActionSnapshot,
        current: S,
    ) -> S {
        if self.slow_after(actions) {
            params.slow_speed
        } else if actions.moving() && !self.slow {
            current
        } else {
            params.default_speed
        }
    }

    /// The camera after the frame's speed update, before any ramp is added.
    pub open spec fn after_speed_update(
        self,
        params: MovableCameraParams<S>,
        actions: ActionSnapshot,
    ) -> Self {
        MovableCamera {
            speed: self.setting_after(params, actions, self.speed),
            angular_speed: self.setting_after(params, actions, self.angular_speed),
            slow: self.slow_after(actions),
            cursor_pos: self.cursor_pos,
            focused: self.focused,
        }
    }
}

/// Takes the frame's input into the camera's speed settings.
///
/// A press of `AdjustSpeed` flips slow mode. In slow mode both speeds are
/// `slow_speed`. Out of it, with no direction held, both are `default_speed`;
/// with a direction held they keep their values, or start from
/// `default_speed` where slow mode ended in this frame.
///
/// The result says whether the linear speed ramps in this frame: where it is
/// `true`, the caller adds `acceleration` times the frame's elapsed seconds
/// to `cam.speed`. The angular speed never ramps.
pub fn adjust_cam_speed<S: Copy, P>(
    cam: &mut MovableCamera<S, P>,
    params: &MovableCameraParams<S>,
    actions: &ActionSnapshot,
) -> (ramp: bool)
    ensures
        *final(cam) == old(cam).after_speed_update(*params, *actions),
        ramp == old(cam).ramps(*actions),
{
    if actions.just_pressed(FlyingCamAction::AdjustSpeed) {
        cam.slow = !cam.slow;
        if !cam.slow {
            cam.speed = params.default_speed;
            cam.angular_speed = params.default_speed;
        }
    }
    if cam.slow {
        cam.speed = params.slow_speed;
        cam.angular_speed = params.slow_speed;
        false
    } else if actions.any_direction_pressed() {
        true
    } else {
        cam.speed = params.default_speed;
        cam.angular_speed = params.default_speed;
        false
    }
}

/// Pressing `AdjustSpeed` on a camera that is not slow makes it slow with both
/// speeds at `slow_speed`, whatever else is held; pressing it again in a later
/// frame ends slow mode with both speeds back at `default_speed`, and the
/// linear speed ramps from there exactly where a direction is held.
pub proof fn slow_toggle_round_trip<S, P>(
    cam: MovableCamera<S, P>,
    params: MovableCameraParams<S>,
    first: ActionSnapshot,
    second: ActionSnapshot,
)
    requires
        !cam.slow,
        first.just_pressed@.contains(FlyingCamAction::AdjustSpeed),
        second.just_pressed@.contains(FlyingCamAction::AdjustSpeed),
    ensures
        ({
            let slowed = cam.after_speed_update(params, first);
            let restored = slowed.after_speed_update(params, second);
            &&& slowed.slow
            &&& slowed.speed == params.slow_speed
            &&& slowed.angular_speed == params.slow_speed
            &&& slowed.ramps(second) == second.moving()
            &&& !restored.slow
            &&& restored.speed == params.default_speed
            &&& restored.angular_speed == params.default_speed
        }),
{
}

/// Where slow mode is on once the frame's toggle is taken in, both speeds are
/// `slow_speed` and nothing ramps, whatever is held.
pub proof fn slow_mode_overrides_ramp<S, P>(
    cam: MovableCamera<S, P>,
    params: MovableCameraParams<S>,
    actions: ActionSnapshot,
)
    requires
        cam.slow_after(actions),
    ensures
        !cam.ramps(actions),
        cam.after_speed_update(params, actions).speed == params.slow_speed,
        cam.after_speed_update(params, actions).angular_speed == params.slow_speed,
{
}

/// The angular speed is always one of `default_speed` and `slow_speed`: a
/// frame's update keeps it so.
pub proof fn angular_speed_never_ramps<S, P>(
    cam: MovableCamera<S, P>,
    params: MovableCameraParams<S>,
    actions: ActionSnapshot,
)
    requires
        cam.angular_speed == params.default_speed || cam.angular_speed == params.slow_speed,
    ensures
        ({
            let after = cam.after_speed_update(params, actions);
            after.angular_speed == params.default_speed || after.angular_speed
                == params.slow_speed
        }),
{
}

/// With no direction held and slow mode off, a frame puts both speeds back to
/// `default_speed`: a ramp ends as soon as the movement does.
pub proof fn speed_resets_when_movement_stops<S, P>(
    cam: MovableCamera<S, P>,
    params: MovableCameraParams<S>,
    actions: ActionSnapshot,
)
    requires
        !actions.moving(),
        !cam.slow_after(actions),
    ensures
        !cam.ramps(actions),
        cam.after_speed_update(params, actions).speed == params.default_speed,
        cam.after_speed_update(params, actions).angular_speed == params.default_speed,
{
}

} // verus!
