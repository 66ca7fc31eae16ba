//! One frame of a camera rig: the handoff of the transform between free
//! flight and orbiting, and the plan of which node takes the frame's rotation,
//! zoom and translation.
//!
//! A rig is a camera node under a pivot node. In free flight the camera's own
//! transform carries position and orientation and the pivot rests at the
//! identity. Focused, the pivot carries them and the camera keeps only its
//! distance from the pivot. The transforms are of any type `T`: the handoff
//! moves them whole, and what has to be computed on them is left to the
//! caller by the plan.

use vstd::prelude::*;
use crate::action::{net_movement, ActionSnapshot, FlyingCamAction};
use crate::camera::MovableCamera;

verus! {

/// The raw direction of travel that the held actions ask for, one component
/// per local axis of the camera (left, up, forward), each `-1`, `0` or `1`.
#[derive(Clone, Copy, Debug, PartialEq, Eq, Structural)]
pub struct Heading {
    /// `Right` against `Left`: `1` where only `Right` is held.
    pub x: i8,
    /// `Down` against `Up`: `1` where only `Down` is held.
    pub y: i8,
    /// `Forward` against `Back`: `1` where only `Forward` is held.
    pub z: i8,
}

impl Heading {
    /// Whether the heading asks for no travel at all.
    pub open spec fn is_zero(self) -> bool {
        self.x == 0 && self.y == 0 && self.z == 0
    }
}

/// The transforms of a camera and of the pivot above it.
#[derive(Clone, Copy, Debug, PartialEq)]
pub struct Rig<T> {
    /// The camera's transform, local to the pivot.
    pub camera: T,
    /// The pivot's transform; `None` where the camera's parent cannot take
    /// one.
    pub pivot: Option<T>,
}

/// The transfer of the transform between camera and pivot in one frame.
#[derive(Clone, Copy, Debug, PartialEq)]
pub enum Handoff<T> {
    /// Nothing was transferred.
    Stay,
    /// The camera became focused: the pivot, where there is one, took the
    /// camera's transform, and the camera was reset to the identity.
    Focus,
    /// The camera was released: it took the pivot's transform, and the pivot
    /// was reset to the identity. The caller still moves the camera along its
    /// backward axis by the local z of `former`, the transform that the
    /// camera had under the pivot.
    Release { former: T },
    /// The camera was released with no pivot to take a transform from: the
    /// camera stayed as it was.
    ReleaseInPlace,
}

/// The node whose rotation takes the frame's pointer motion.
#[derive(Clone, Copy, Debug, PartialEq, Eq, Structural)]
pub enum Turn {
    /// No node turns.
    Hold,
    /// The camera turns about itself.
    Camera,
    /// The pivot turns, so that the camera orbits.
    Pivot,
}

/// How the frame's scroll moves the camera.
#[derive(Clone, Copy, Debug, PartialEq, Eq, Structural)]
pub enum Zoom {
    /// The camera's local translation loses `scroll_snap * scroll * speed` on
    /// z and is then floored at zero in every component.
    Orbit,
    /// The camera moves along its own forward axis by
    /// `scroll_snap * scroll * speed`.
    Fly,
}

/// What was done to the rig in one frame and what the caller still does to
/// it, in the order of the fields.
#[derive(Clone, Copy, Debug, PartialEq)]
pub struct FramePlan<T> {
    /// The transfer between camera and pivot.
    pub handoff: Handoff<T>,
    /// Whether the frame's pointer motion is read and summed.
    pub sample_motion: bool,
    /// The node that turns by the summed motion, where that is not zero.
    pub turn: Turn,
    /// The way the summed scroll zooms, where that is not zero.
    pub zoom: Zoom,
    /// The heading to travel along, normalised and scaled by the elapsed
    /// seconds and the speed; `None` where the camera does not travel.
    pub travel: Option<Heading>,
}

impl ActionSnapshot {
    /// The heading that the held directions ask for.
    pub open spec fn heading(self) -> Heading {
        Heading {
            x: self.net(FlyingCamAction::Left, FlyingCamAction::Right) as i8,
            y: self.net(FlyingCamAction::Up, FlyingCamAction::Down) as i8,
            z: self.net(FlyingCamAction::Back, FlyingCamAction::Forward) as i8,
        }
    }
}

impl<S, P> MovableCamera<S, P> {
    /// Whether the camera is focused once the frame's handoff is done. A
    /// focused camera stays so until a direction is held; a free one becomes
    /// focused in the frame in which `Focus` goes down.
    pub open spec fn focused_after(self, actions: ActionSnapshot) -> bool {
        if self.focused {
            !actions.moving()
        } else {
            actions.just_pressed@.contains(FlyingCamAction::Focus)
        }
    }

    /// The frame's handoff on `rig`.
    pub open spec fn handoff<T>(self, rig: Rig<T>, actions: ActionSnapshot) -> Handoff<T> {
        if self.focused == self.focused_after(actions) {
            Handoff::Stay
        } else if !self.focused {
            Handoff::Focus
        } else if rig.pivot is Some {
            Handoff::Release { former: rig.camera }
        } else {
            Handoff::ReleaseInPlace
        }
    }

    /// The rig after the frame's handoff, `identity` being the transform of a
    /// node at rest.
    pub open spec fn rig_after<T>(self, rig: Rig<T>, identity: T, actions: ActionSnapshot) -> Rig<
        T,
    > {
        match (self.handoff(rig, actions), rig.pivot) {
            (Handoff::Focus, Some(_)) => Rig { camera: identity, pivot: Some(rig.camera) },
            (Handoff::Focus, None) => Rig { camera: identity, pivot: None },
            (Handoff::Release { .. }, Some(pivot)) => Rig { camera: pivot, pivot: Some(identity) },
            _ => rig,
        }
    }

    /// The frame's plan. Pointer motion counts only while `Secondary` is held;
    /// it turns the camera in free flight and the pivot, where there is one,
    /// in focus. Only a free camera travels, and only along a heading that is
    /// not zero. The mode that decides is the one after the handoff.
    pub open spec fn frame_plan<T>(self, rig: Rig<T>, actions: ActionSnapshot) -> FramePlan<T> {
        let focused = self.focused_after(actions);
        let sample_motion = actions.pressed@.contains(FlyingCamAction::Secondary);
        FramePlan {
            handoff: self.handoff(rig, actions),
            sample_motion,
            turn: if !sample_motion {
                Turn::Hold
            } else if !focused {
                Turn::Camera
            } else if rig.pivot is Some {
                Turn::Pivot
            } else {
                Turn::Hold
            },
            zoom: if focused {
                Zoom::Orbit
            } else {
                Zoom::Fly
            },
            travel: if focused || actions.heading().is_zero() {
                None
            } else {
                Some(actions.heading())
            },
        }
    }
}

impl<T> Rig<T> {
    /// The rig of a camera in free flight is at rest where its pivot, if it
    /// has one, is at the identity.
    pub open spec fn pivot_at_rest(self, identity: T) -> bool {
        self.pivot matches Some(pivot) ==> pivot == identity
    }
}

/// The heading that the held directions ask for.
pub fn heading(actions: &ActionSnapshot) -> (h: Heading)
    ensures
        h == actions.heading(),
{
    Heading {
        x: net_movement(actions, FlyingCamAction::Left, FlyingCamAction::Right),
        y: net_movement(actions, FlyingCamAction::Up, FlyingCamAction::Down),
        z: net_movement(actions, FlyingCamAction::Back, FlyingCamAction::Forward),
    }
}

/// Carries out the frame's handoff on `rig` and decides what else the frame
/// does to it.
///
/// `identity` is the transform of a node at rest. The camera's `focused`
/// becomes `focused_after` and nothing else of the camera changes; the rig
/// becomes `rig_after`. The result is `frame_plan`, for the caller to carry
/// out on the rig as it now is.
pub fn movable_camera<S, P, T: Copy>(
    cam: &mut MovableCamera<S, P>,
    rig: &mut Rig<T>,
    identity: T,
    actions: &ActionSnapshot,
) -> (plan: FramePlan<T>)
    ensures
        final(cam).focused == old(cam).focused_after(*actions),
        final(cam).speed == old(cam).speed,
        final(cam).angular_speed == old(cam).angular_speed,
        final(cam).slow == old(cam).slow,
        final(cam).cursor_pos == old(cam).cursor_pos,
        *final(rig) == old(cam).rig_after(*old(rig), identity, *actions),
        plan == old(cam).frame_plan(*old(rig), *actions),
{
    let mut handoff = Handoff::Stay;
    if cam.focused {
        if actions.any_direction_pressed() {
            handoff = match rig.pivot {
                Some(pivot) => {
                    let former = rig.camera;
                    rig.camera = pivot;
                    rig.pivot = Some(identity);
                    Handoff::Release { former }
                },
                None => Handoff::ReleaseInPlace,
            };
            cam.focused = false;
        }
    } else if actions.just_pressed(FlyingCamAction::Focus) {
        if rig.pivot.is_some() {
            rig.pivot = Some(rig.camera);
        }
        rig.camera = identity;
        handoff = Handoff::Focus;
        cam.focused = true;
    }
    let sample_motion = actions.pressed(FlyingCamAction::Secondary);
    if cam.focused {
        let turn = if sample_motion && rig.pivot.is_some() {
            Turn::Pivot
        } else {
            Turn::Hold
        };
        FramePlan { handoff, sample_motion, turn, zoom: Zoom::Orbit, travel: None }
    } else {
        let turn = if sample_motion {
            Turn::Camera
        } else {
            Turn::Hold
        };
        let h = heading(actions);
        let travel = if h.x != 0 || h.y != 0 || h.z != 0 {
            Some(h)
        } else {
            None
        };
        FramePlan { handoff, sample_motion, turn, zoom: Zoom::Fly, travel }
    }
}

/// Focusing and releasing gives the rig back. From free flight with the
/// camera at the transform `rig.camera`, the frame in which `Focus` goes down
/// leaves that transform on the pivot and the identity on the camera, without
/// travel and without turning the camera. A following frame with a direction
/// held puts the transform back on the camera and the identity on the pivot,
/// and the move that it leaves to the caller is measured on the identity. So
/// a rig whose pivot was at rest is after the two frames what it was before.
pub proof fn focus_round_trip<S, P, T>(
    cam: MovableCamera<S, P>,
    rig: Rig<T>,
    identity: T,
    first: ActionSnapshot,
    second: ActionSnapshot,
)
    requires
        !cam.focused,
        rig.pivot is Some,
        first.just_pressed@.contains(FlyingCamAction::Focus),
        second.moving(),
    ensures
        ({
            let focused = MovableCamera { focused: cam.focused_after(first), ..cam };
            let orbiting = cam.rig_after(rig, identity, first);
            let plan = cam.frame_plan(rig, first);
            let released = focused.rig_after(orbiting, identity, second);
            &&& focused.focused
            &&& orbiting.pivot == Some(rig.camera)
            &&& orbiting.camera == identity
            &&& plan.handoff == Handoff::<T>::Focus
            &&& plan.travel is None
            &&& plan.turn != Turn::Camera
            &&& !focused.focused_after(second)
            &&& released.camera == rig.camera
            &&& released.pivot == Some(identity)
            &&& focused.frame_plan(orbiting, second).handoff == (Handoff::Release {
                former: identity,
            })
            &&& rig.pivot_at_rest(identity) ==> released == rig
        }),
{
}

/// The node that a mode does not steer by is at rest. In free flight that is
/// the pivot: a frame that begins in free flight with the pivot at rest, or
/// that ends a focus, leaves the pivot of a free camera at the identity. In
/// focus it is the camera, as far as the handoff goes: the frame that focuses
/// a camera leaves it at the identity.
pub proof fn idle_node_rests<S, P, T>(
    cam: MovableCamera<S, P>,
    rig: Rig<T>,
    identity: T,
    actions: ActionSnapshot,
)
    requires
        !cam.focused ==> rig.pivot_at_rest(identity),
    ensures
        !cam.focused_after(actions) ==> cam.rig_after(rig, identity, actions).pivot_at_rest(
            identity,
        ),
        cam.focused_after(actions) && !cam.focused ==> cam.rig_after(
            rig,
            identity,
            actions,
        ).camera == identity,
{
}

/// A plan keeps to the mode that the frame ends in. Focused, the camera
/// neither turns nor travels and the zoom is the floored one; free, the pivot
/// does not turn and the zoom runs along the camera's forward axis.
pub proof fn plan_keeps_to_mode<S, P, T>(
    cam: MovableCamera<S, P>,
    rig: Rig<T>,
    actions: ActionSnapshot,
)
    ensures
        ({
            let plan = cam.frame_plan(rig, actions);
            if cam.focused_after(actions) {
                plan.turn != Turn::Camera && plan.travel is None && plan.zoom == Zoom::Orbit
            } else {
                plan.turn != Turn::Pivot && plan.zoom == Zoom::Fly
            }
        }),
{
}

/// The rig changes only through a handoff: where the plan says `Stay`, the
/// camera is focused after the frame exactly if it was before, and the rig is
/// what it was.
pub proof fn rig_changes_only_by_handoff<S, P, T>(
    cam: MovableCamera<S, P>,
    rig: Rig<T>,
    identity: T,
    actions: ActionSnapshot,
)
    ensures
        (cam.handoff(rig, actions) == Handoff::<T>::Stay) == (cam.focused_after(actions)
            == cam.focused),
        cam.handoff(rig, actions) == Handoff::<T>::Stay ==> cam.rig_after(rig, identity, actions)
            == rig,
{
}

/// An axis whose two actions are both up takes no part in the heading, and a
/// camera travels only where some direction is held.
pub proof fn heading_follows_held_directions(actions: ActionSnapshot)
    ensures
        !actions.pressed@.contains(FlyingCamAction::Left) && !actions.pressed@.contains(
            FlyingCamAction::Right,
        ) ==> actions.heading().x == 0,
        !actions.pressed@.contains(FlyingCamAction::Up) && !actions.pressed@.contains(
            FlyingCamAction::Down,
        ) ==> actions.heading().y == 0,
        !actions.pressed@.contains(FlyingCamAction::Back) && !actions.pressed@.contains(
            FlyingCamAction::Forward,
        ) ==> actions.heading().z == 0,
        !actions.heading().is_zero() ==> actions.moving(),
{
}

} // verus!
