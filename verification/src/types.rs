//! Data model of the capability surface: battery readings, per-capability
//! configuration values, and the button-to-action mapping.
//!
//! Scroll speeds are fixed-point values in thousandths of a detent per
//! detent (`1000` is the neutral speed), so the remap arithmetic is exact.

use vstd::prelude::*;

verus! {

/// Scale of the fixed-point speed fields: one unit is `1/1000`.
pub const SPEED_SCALE_MILLI: u32 = 1000;

#[derive(Debug, Clone, Copy, PartialEq, Eq)]
pub struct BatteryInfo {
    pub level: u8,
    pub status: BatteryStatus,
}

#[derive(Debug, Clone, Copy, PartialEq, Eq)]
pub enum BatteryStatus {
    Discharging,
    Charging,
    Full,
    Unknown,
}

#[derive(Debug, Clone, Copy, PartialEq, Eq)]
pub struct SmartShiftConfig {
    pub enabled: bool,
    pub threshold: u8,
}

impl Default for SmartShiftConfig {
    fn default() -> (r: Self)
        ensures
            r == (SmartShiftConfig { enabled: false, threshold: 0 }),
    {
        SmartShiftConfig { enabled: false, threshold: 0 }
    }
}

#[derive(Debug, Clone, Copy, PartialEq, Eq)]
pub struct HiResScrollConfig {
    pub enabled: bool,
    pub inverted: bool,
}

impl Default for HiResScrollConfig {
    fn default() -> (r: Self)
        ensures
            r == (HiResScrollConfig { enabled: false, inverted: false }),
    {
        HiResScrollConfig { enabled: false, inverted: false }
    }
}

/// Scroll-wheel tuning.  The speeds are in thousandths: `500` halves, `1000`
/// keeps, `2500` multiplies by two and a half.
#[derive(Debug, Clone, Copy, PartialEq, Eq)]
pub struct ScrollWheelConfig {
    pub vertical_speed_milli: u32,
    pub horizontal_speed_milli: u32,
    pub smooth_scrolling: bool,
}

impl Default for ScrollWheelConfig {
    fn default() -> (r: Self)
        ensures
            r == (ScrollWheelConfig {
                vertical_speed_milli: SPEED_SCALE_MILLI,
                horizontal_speed_milli: SPEED_SCALE_MILLI,
                smooth_scrolling: false,
            }),
    {
        ScrollWheelConfig {
            vertical_speed_milli: SPEED_SCALE_MILLI,
            horizontal_speed_milli: SPEED_SCALE_MILLI,
            smooth_scrolling: false,
        }
    }
}

/// Thumbwheel tuning, in the same thousandths scale.
#[derive(Debug, Clone, Copy, PartialEq, Eq)]
pub struct ThumbWheelConfig {
    pub speed_milli: u32,
    pub smooth_scrolling: bool,
}

impl Default for ThumbWheelConfig {
    fn default() -> (r: Self)
        ensures
            r == (ThumbWheelConfig { speed_milli: SPEED_SCALE_MILLI, smooth_scrolling: true }),
    {
        ThumbWheelConfig { speed_milli: SPEED_SCALE_MILLI, smooth_scrolling: true }
    }
}

#[derive(Debug, Clone, Copy, PartialEq, Eq, Hash, Structural)]
pub enum ButtonId {
    LeftClick,
    RightClick,
    MiddleClick,
    Back,
    Forward,
    ThumbGesture,
    WheelModeShift,
}

/// What a remapped button does: a list of key presses, a set of gestures,
/// a SmartShift toggle, or nothing.
#[derive(Debug, PartialEq, Eq)]
pub enum Action {
    Keypress { keys: Vec<String> },
    Gestures { gestures: Vec<Gesture> },
    ToggleSmartShift,
    NoAction,
}

#[derive(Debug, PartialEq, Eq)]
pub struct Gesture {
    pub direction: GestureDirection,
    pub mode: GestureMode,
    pub action: Box<Action>,
}

#[derive(Debug, Clone, Copy, PartialEq, Eq)]
pub enum GestureDirection {
    Up,
    Down,
    Left,
    Right,
    NoDirection,
}

#[derive(Debug, Clone, Copy, PartialEq, Eq)]
pub enum GestureMode {
    OnRelease,
    OnPress,
}

/// Structural equivalence of actions: the same shape with the same keys,
/// directions, modes and nested actions.  (Separately allocated vectors
/// with equal contents are equivalent without being equal.)
pub open spec fn spec_action_like(a: Action, b: Action) -> bool
    decreases a,
{
    match (a, b) {
        (Action::Keypress { keys: ka }, Action::Keypress { keys: kb }) => ka@ == kb@,
        (Action::Gestures { gestures: ga }, Action::Gestures { gestures: gb }) => ga@.len()
            == gb@.len() && (forall|i: int|
            0 <= i < ga@.len() ==> spec_gesture_like(#[trigger] ga@[i], gb@[i])),
        (Action::ToggleSmartShift, Action::ToggleSmartShift) => true,
        (Action::NoAction, Action::NoAction) => true,
        _ => false,
    }
}

/// Structural equivalence of gestures.
pub open spec fn spec_gesture_like(g: Gesture, h: Gesture) -> bool
    decreases g,
{
    g.direction == h.direction && g.mode == h.mode && spec_action_like(*g.action, *h.action)
}

impl Action {
    /// A structural copy of the action; the button map and the manager store
    /// owned values.
    #[verifier::loop_isolation(false)]
    pub fn duplicate(&self) -> (r: Action)
        ensures
            spec_action_like(*self, r),
        decreases *self,
    {
        match self {
            Action::Keypress { keys } => {
                let mut copied: Vec<String> = Vec::new();
                let mut i: usize = 0;
                while i < keys.len()
                    invariant
                        i <= keys@.len(),
                        copied@ == keys@.subrange(0, i as int),
                    decreases keys@.len() - i,
                {
                    copied.push(keys[i].clone());
                    proof {
                        assert(keys@.subrange(0, i + 1) =~= keys@.subrange(0, i as int).push(
                            keys@[i as int],
                        ));
                    }
                    i += 1;
                }
                proof {
                    assert(keys@.subrange(0, keys@.len() as int) =~= keys@);
                }
                Action::Keypress { keys: copied }
            },
            Action::Gestures { gestures } => {
                let mut copied: Vec<Gesture> = Vec::new();
                let mut i: usize = 0;
                while i < gestures.len()
                    invariant
                        i <= gestures@.len(),
                        copied@.len() == i,
                        forall|j: int|
                            0 <= j < i ==> spec_gesture_like(
                                #[trigger] gestures@[j],
                                copied@[j],
                            ),
                    decreases gestures@.len() - i,
                {
                    let g = &gestures[i];
                    proof {
                        assert(decreases_to!(gestures@ => gestures@[i as int]));
                        assert(decreases_to!(*self => *g.action));
                    }
                    copied.push(
                        Gesture {
                            direction: g.direction,
                            mode: g.mode,
                            action: Box::new(g.action.duplicate()),
                        },
                    );
                    i += 1;
                }
                Action::Gestures { gestures: copied }
            },
            Action::ToggleSmartShift => Action::ToggleSmartShift,
            Action::NoAction => Action::NoAction,
        }
    }
}

} // verus!
