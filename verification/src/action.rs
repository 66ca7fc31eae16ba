//! The named actions of the input layer, and one frame's record of them.

use vstd::prelude::*;

verus! {

/// A discrete action that the input layer reports.
#[derive(Clone, Copy, PartialEq, Eq, Structural, Hash, Debug)]
pub enum FlyingCamAction {
    AdjustSpeed,
    Back,
    ClickHoldSecondary,
    Down,
    Focus,
    Forward,
    Left,
    Primary,
    Right,
    Secondary,
    Up,
}

impl FlyingCamAction {
    /// The bit that stands for this action in an `ActionSet`.
    pub open spec fn mask(self) -> u16 {
        match self {
            FlyingCamAction::AdjustSpeed => 0x001,
            FlyingCamAction::Back => 0x002,
            FlyingCamAction::ClickHoldSecondary => 0x004,
            FlyingCamAction::Down => 0x008,
            FlyingCamAction::Focus => 0x010,
            FlyingCamAction::Forward => 0x020,
            FlyingCamAction::Left => 0x040,
            FlyingCamAction::Primary => 0x080,
            FlyingCamAction::Right => 0x100,
            FlyingCamAction::Secondary => 0x200,
            FlyingCamAction::Up => 0x400,
        }
    }

    fn bit(self) -> (m: u16)
        ensures
            m == self.mask(),
    {
        match self {
            FlyingCamAction::AdjustSpeed => 0x001,
            FlyingCamAction::Back => 0x002,
            FlyingCamAction::ClickHoldSecondary => 0x004,
            FlyingCamAction::Down => 0x008,
            FlyingCamAction::Focus => 0x010,
            FlyingCamAction::Forward => 0x020,
            FlyingCamAction::Left => 0x040,
            FlyingCamAction::Primary => 0x080,
            FlyingCamAction::Right => 0x100,
            FlyingCamAction::Secondary => 0x200,
            FlyingCamAction::Up => 0x400,
        }
    }
}

/// A mask with exactly one of the eleven action bits set.
spec fn single_bit(m: u16) -> bool {
    m == 0x001 || m == 0x002 || m == 0x004 || m == 0x008 || m == 0x010 || m == 0x020
        || m == 0x040 || m == 0x080 || m == 0x100 || m == 0x200 || m == 0x400
}

/// Setting one action's bit changes the test of that bit and of no other, and
/// the zero mask has no bit set.
proof fn lemma_set_bit(bits: u16, m: u16, n: u16)
    by (bit_vector)
    requires
        single_bit(m),
        single_bit(n),
    ensures
        ((bits | m) & n != 0) == (m == n || bits & n != 0),
        0u16 & n == 0,
{
}

/// A set of actions.
#[derive(Clone, Copy, Debug)]
pub struct ActionSet {
    bits: u16,
}

impl View for ActionSet {
    type V = Set<FlyingCamAction>;

    closed spec fn view(&self) -> Set<FlyingCamAction> {
        Set::new(|a: FlyingCamAction| self.bits & a.mask() != 0)
    }
}

impl ActionSet {
    /// The set that holds no action.
    pub fn empty() -> (s: ActionSet)
        ensures
            s@ == Set::<FlyingCamAction>::empty(),
    {
        let s = ActionSet { bits: 0 };
        proof {
            assert forall|a: FlyingCamAction| !s@.contains(a) by {
                lemma_set_bit(0, a.mask(), a.mask());
            }
            assert(s@ =~= Set::<FlyingCamAction>::empty());
        }
        s
    }

    /// Whether `action` is in the set.
    pub fn contains(&self, action: FlyingCamAction) -> (b: bool)
        ensures
            b == self@.contains(action),
    {
        self.bits & action.bit() != 0
    }

    /// Adds `action` to the set.
    pub fn insert(&mut self, action: FlyingCamAction)
        ensures
            final(self)@ == old(self)@.insert(action),
    {
        self.bits = self.bits | action.bit();
        proof {
            assert forall|a: FlyingCamAction|
                self@.contains(a) == old(self)@.insert(action).contains(a) by {
                lemma_set_bit(old(self).bits, action.mask(), a.mask());
            }
            assert(self@ =~= old(self)@.insert(action));
        }
    }
}

/// What the input layer reports of the actions in one frame.
///
/// The three sets are independent: the decisions of this crate are defined
/// for every combination of them.
#[derive(Clone, Copy, Debug)]
pub struct ActionSnapshot {
    /// The actions that are held down.
    pub pressed: ActionSet,
    /// The actions that went down in this frame.
    pub just_pressed: ActionSet,
    /// The actions that came up in this frame.
    pub just_released: ActionSet,
}

impl ActionSnapshot {
    /// Whether any of the six directional actions is held.
    pub open spec fn moving(self) -> bool {
        self.pressed@.contains(FlyingCamAction::Forward) || self.pressed@.contains(
            FlyingCamAction::Back,
        ) || self.pressed@.contains(FlyingCamAction::Left) || self.pressed@.contains(
            FlyingCamAction::Right,
        ) || self.pressed@.contains(FlyingCamAction::Up) || self.pressed@.contains(
            FlyingCamAction::Down,
        )
    }

    /// The net input on one axis: `1` where only `positive` is held, `-1`
    /// where only `negative` is, `0` where both or neither are.
    pub open spec fn net(self, negative: FlyingCamAction, positive: FlyingCamAction) -> int {
        if self.pressed@.contains(negative) && !self.pressed@.contains(positive) {
            -1
        } else if !self.pressed@.contains(negative) && self.pressed@.contains(positive) {
            1
        } else {
            0
        }
    }

    /// A frame in which nothing is held and nothing changed.
    pub fn idle() -> (s: ActionSnapshot)
        ensures
            s.pressed@ == Set::<FlyingCamAction>::empty(),
            s.just_pressed@ == Set::<FlyingCamAction>::empty(),
            s.just_released@ == Set::<FlyingCamAction>::empty(),
    {
        ActionSnapshot {
            pressed: ActionSet::empty(),
            just_pressed: ActionSet::empty(),
            just_released: ActionSet::empty(),
        }
    }

    /// Whether `action` is held down.
    pub fn pressed(&self, action: FlyingCamAction) -> (b: bool)
        ensures
            b == self.pressed@.contains(action),
    {
        self.pressed.contains(action)
    }

    /// Whether `action` went down in this frame.
    pub fn just_pressed(&self, action: FlyingCamAction) -> (b: bool)
        ensures
            b == self.just_pressed@.contains(action),
    {
        self.just_pressed.contains(action)
    }

    /// Whether `action` came up in this frame.
    pub fn just_released(&self, action: FlyingCamAction) -> (b: bool)
        ensures
            b == self.just_released@.contains(action),
    {
        self.just_released.contains(action)
    }

    /// Whether any of the six directional actions is held.
    pub fn any_direction_pressed(&self) -> (b: bool)
        ensures
            b == self.moving(),
    {
        self.pressed(FlyingCamAction::Forward) || self.pressed(FlyingCamAction::Back)
            || self.pressed(FlyingCamAction::Left) || self.pressed(FlyingCamAction::Right)
            || self.pressed(FlyingCamAction::Up) || self.pressed(FlyingCamAction::Down)
    }
}

/// The net input on one axis, as `ActionSnapshot::net` defines it.
pub fn net_movement(
    actions: &ActionSnapshot,
    negative: FlyingCamAction,
    positive: FlyingCamAction,
) -> (r: i8)
    ensures
        r == actions.net(negative, positive),
{
    match (actions.pressed(negative), actions.pressed(positive)) {
        (true, false) => -1,
        (false, true) => 1,
        _ => 0,
    }
}

} // verus!
