//! Persisted desired state for named devices, as typed values.
//!
//! Reading and writing the on-disk document is a collaborator's job; the
//! library consumes `Config` values, matches entries to attached devices by
//! name, and applies them.

use vstd::prelude::*;

use crate::types::{
    Action, ButtonId, Gesture, GestureDirection, GestureMode, HiResScrollConfig, ScrollWheelConfig,
    SmartShiftConfig, ThumbWheelConfig,
};

verus! {

/// The DPI applied when an entry names none.
pub fn default_dpi() -> (r: u16)
    ensures
        r == 1000,
{
    1000
}

/// Desired state for one named device.  The name is the match key against
/// the device-reported name.
pub struct DeviceConfig {
    pub name: String,
    pub dpi: u16,
    pub smartshift: SmartShiftConfig,
    pub hiresscroll: HiResScrollConfig,
    pub scroll_wheel: ScrollWheelConfig,
    pub thumbwheel: ThumbWheelConfig,
    pub buttons: Vec<(ButtonId, Action)>,
}

/// Zero or more device entries.
pub struct Config {
    pub devices: Vec<DeviceConfig>,
}

/// One gesture of the stock thumb map: the given direction, on release,
/// with a key press whose key list views are the given ones.
pub open spec fn spec_stock_gesture(
    g: Gesture,
    direction: GestureDirection,
    keys: Seq<Seq<char>>,
) -> bool {
    g.direction == direction && g.mode == GestureMode::OnRelease && (*g.action matches
    Action::Keypress { keys: got } && got@.len() == keys.len() && (forall|i: int|
        0 <= i < keys.len() ==> (#[trigger] got@[i])@ == keys[i]))
}

/// The stock thumb-gesture map: up, down, left, right and the neutral
/// direction, all on release, each a key press.
pub open spec fn spec_stock_gestures(gestures: Seq<Gesture>) -> bool {
    gestures.len() == 5 && spec_stock_gesture(gestures[0], GestureDirection::Up, seq!["KEY_UP"@])
        && spec_stock_gesture(gestures[1], GestureDirection::Down, seq!["KEY_DOWN"@])
        && spec_stock_gesture(
        gestures[2],
        GestureDirection::Left,
        seq!["KEY_LEFTCTRL"@, "KEY_LEFT"@],
    ) && spec_stock_gesture(
        gestures[3],
        GestureDirection::Right,
        seq!["KEY_LEFTCTRL"@, "KEY_RIGHT"@],
    ) && spec_stock_gesture(gestures[4], GestureDirection::NoDirection, seq!["KEY_LEFTMETA"@])
}

fn keypress_one(key: &str) -> (r: Action)
    ensures
        r matches Action::Keypress { keys } && keys@.len() == 1 && keys@[0]@ == key@,
{
    let mut keys: Vec<String> = Vec::new();
    keys.push(String::from_str(key));
    Action::Keypress { keys }
}

fn keypress_two(first: &str, second: &str) -> (r: Action)
    ensures
        r matches Action::Keypress { keys } && keys@.len() == 2 && keys@[0]@ == first@ && keys@[1]@
            == second@,
{
    let mut keys: Vec<String> = Vec::new();
    keys.push(String::from_str(first));
    keys.push(String::from_str(second));
    Action::Keypress { keys }
}

fn gesture(direction: GestureDirection, action: Action) -> (r: Gesture)
    ensures
        r.direction == direction,
        r.mode == GestureMode::OnRelease,
        *r.action == action,
{
    Gesture { direction, mode: GestureMode::OnRelease, action: Box::new(action) }
}

impl Default for DeviceConfig {
    /// The stock entry: the device's marketing name, 1000 DPI, SmartShift
    /// enabled at threshold 20, hi-res scroll enabled and not inverted,
    /// neutral wheel tuning, a five-gesture thumb map and a SmartShift
    /// toggle on the wheel-mode button.
    fn default() -> (r: Self)
        ensures
            r.name@ == "MX Master 3S"@,
            r.dpi == 1000,
            r.smartshift == (SmartShiftConfig { enabled: true, threshold: 20 }),
            r.hiresscroll == (HiResScrollConfig { enabled: true, inverted: false }),
            r.scroll_wheel == (ScrollWheelConfig {
                vertical_speed_milli: 1000,
                horizontal_speed_milli: 1000,
                smooth_scrolling: false,
            }),
            r.thumbwheel == (ThumbWheelConfig { speed_milli: 1000, smooth_scrolling: true }),
            r.buttons@.len() == 2,
            r.buttons@[0].0 == ButtonId::ThumbGesture,
            r.buttons@[0].1 matches Action::Gestures { gestures } && spec_stock_gestures(
                gestures@,
            ),
            r.buttons@[1].0 == ButtonId::WheelModeShift,
            r.buttons@[1].1 == Action::ToggleSmartShift,
    {
        let mut gestures: Vec<Gesture> = Vec::new();
        gestures.push(gesture(GestureDirection::Up, keypress_one("KEY_UP")));
        gestures.push(gesture(GestureDirection::Down, keypress_one("KEY_DOWN")));
        gestures.push(gesture(GestureDirection::Left, keypress_two("KEY_LEFTCTRL", "KEY_LEFT")));
        gestures.push(gesture(GestureDirection::Right, keypress_two("KEY_LEFTCTRL", "KEY_RIGHT")));
        gestures.push(gesture(GestureDirection::NoDirection, keypress_one("KEY_LEFTMETA")));

        let mut buttons: Vec<(ButtonId, Action)> = Vec::new();
        buttons.push((ButtonId::ThumbGesture, Action::Gestures { gestures }));
        buttons.push((ButtonId::WheelModeShift, Action::ToggleSmartShift));

        DeviceConfig {
            name: String::from_str("MX Master 3S"),
            dpi: 1000,
            smartshift: SmartShiftConfig { enabled: true, threshold: 20 },
            hiresscroll: HiResScrollConfig { enabled: true, inverted: false },
            scroll_wheel: ScrollWheelConfig::default(),
            thumbwheel: ThumbWheelConfig::default(),
            buttons,
        }
    }
}

impl Default for Config {
    /// One stock device entry.
    fn default() -> (r: Self)
        ensures
            r.devices@.len() == 1,
            r.devices@[0].name@ == "MX Master 3S"@,
            r.devices@[0].dpi == 1000,
    {
        let mut devices: Vec<DeviceConfig> = Vec::new();
        devices.push(DeviceConfig::default());
        Config { devices }
    }
}

impl Config {
    /// The first entry whose name is the given device-reported name;
    /// `None` exactly when no entry matches.
    pub fn find_device_config(&self, name: &String) -> (r: Option<usize>)
        ensures
            r matches Some(i) ==> i < self.devices@.len() && self.devices@[i as int].name@ == name@
                && forall|j: int| 0 <= j < i ==> self.devices@[j].name@ != name@,
            r is None <==> forall|j: int| 0 <= j < self.devices@.len() ==> self.devices@[j].name@ != name@,
    {
        let mut i: usize = 0;
        while i < self.devices.len()
            invariant
                i <= self.devices@.len(),
                forall|j: int| 0 <= j < i ==> self.devices@[j].name@ != name@,
            decreases self.devices@.len() - i,
        {
            if self.devices[i].name == *name {
                return Some(i);
            }
            i += 1;
        }
        None
    }
}

} // verus!
