//! Locking and pinning the cursor while the secondary button turns the camera.

use vstd::prelude::*;
use crate::action::{ActionSnapshot, FlyingCamAction};
use crate::camera::MovableCamera;

verus! {

/// What the window layer reports of the cursor before a frame's decision.
#[derive(Clone, Copy, Debug, PartialEq)]
pub enum Pointer<P> {
    /// There is no primary window.
    NoWindow,
    /// There is a window, and the cursor is not over it.
    Away,
    /// The cursor is over the window, at this position.
    At(P),
}

/// What to do with the window's cursor in one frame.
#[derive(Clone, Copy, Debug, PartialEq)]
pub struct CursorPlan<P> {
    /// The lock mode to set, where it changes.
    pub lock: Option<bool>,
    /// The position to put the cursor back to, where it is pinned.
    pub pin: Option<P>,
}

impl<S, P> MovableCamera<S, P> {
    /// The anchor after a frame: the cursor's position in the frame in which
    /// `Secondary` went down over the window, else the anchor as it was.
    pub open spec fn anchor_after(self, actions: ActionSnapshot, pointer: Pointer<P>) -> P {
        match pointer {
            Pointer::At(pos) if actions.just_pressed@.contains(FlyingCamAction::Secondary) => pos,
            _ => self.cursor_pos,
        }
    }

    /// The cursor plan of a frame. Without a window nothing is done. With one,
    /// the lock goes off in a frame in which `Secondary` came up, else on in a
    /// frame in which it went down; and the cursor is pinned to the anchor
    /// while `Secondary` is held.
    pub open spec fn cursor_plan(self, actions: ActionSnapshot, pointer: Pointer<P>) -> CursorPlan<
        P,
    > {
        CursorPlan {
            lock: if pointer is NoWindow {
                None
            } else if actions.just_released@.contains(FlyingCamAction::Secondary) {
                Some(false)
            } else if actions.just_pressed@.contains(FlyingCamAction::Secondary) {
                Some(true)
            } else {
                None
            },
            pin: if !(pointer is NoWindow) && actions.pressed@.contains(
                FlyingCamAction::Secondary,
            ) {
                Some(self.anchor_after(actions, pointer))
            } else {
                None
            },
        }
    }
}

/// Decides the frame's cursor handling and records the anchor.
///
/// The camera's `cursor_pos` becomes `anchor_after`; nothing else of the
/// camera changes. The result is `cursor_plan`, for the caller to carry out:
/// first the lock, then the pin.
pub fn lock_cursor<S, P: Copy>(
    cam: &mut MovableCamera<S, P>,
    actions: &ActionSnapshot,
    pointer: Pointer<P>,
) -> (plan: CursorPlan<P>)
    ensures
        final(cam).cursor_pos == old(cam).anchor_after(*actions, pointer),
        final(cam).speed == old(cam).speed,
        final(cam).angular_speed == old(cam).angular_speed,
        final(cam).slow == old(cam).slow,
        final(cam).focused == old(cam).focused,
        plan == old(cam).cursor_plan(*actions, pointer),
{
    let has_window = match pointer {
        Pointer::NoWindow => false,
        _ => true,
    };
    let mut lock: Option<bool> = None;
    if actions.just_pressed(FlyingCamAction::Secondary) {
        if has_window {
            lock = Some(true);
        }
        if let Pointer::At(pos) = pointer {
            cam.cursor_pos = pos;
        }
    }
    if actions.just_released(FlyingCamAction::Secondary) && has_window {
        lock = Some(false);
    }
    let pin = if actions.pressed(FlyingCamAction::Secondary) && has_window {
        Some(cam.cursor_pos)
    } else {
        None
    };
    CursorPlan { lock, pin }
}

} // verus!
