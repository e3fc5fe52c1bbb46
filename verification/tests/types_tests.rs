use std::collections::{HashMap, HashSet};

use logi_mx::types::{
    Action, BatteryInfo, BatteryStatus, ButtonId, Gesture, GestureDirection, GestureMode,
    HiResScrollConfig, ScrollWheelConfig, SmartShiftConfig, ThumbWheelConfig,
};

#[test]
fn traits_test_battery_info_creation() {
    let battery = BatteryInfo {
        level: 75,
        status: BatteryStatus::Discharging,
    };
    assert_eq!(battery.level, 75);
    assert_eq!(battery.status, BatteryStatus::Discharging);
}

#[test]
fn test_battery_status_variants() {
    let statuses = [
        BatteryStatus::Discharging,
        BatteryStatus::Charging,
        BatteryStatus::Full,
        BatteryStatus::Unknown,
    ];
    assert_eq!(statuses.len(), 4);
}

#[test]
fn traits_test_smartshift_config_default() {
    let config = SmartShiftConfig::default();
    assert!(!config.enabled);
    assert_eq!(config.threshold, 0);
}

#[test]
fn test_smartshift_config_custom() {
    let config = SmartShiftConfig {
        enabled: true,
        threshold: 10,
    };
    assert!(config.enabled);
    assert_eq!(config.threshold, 10);
}

#[test]
fn traits_test_hires_scroll_config_default() {
    let config = HiResScrollConfig::default();
    assert!(!config.enabled);
    assert!(!config.inverted);
}

#[test]
fn test_hires_scroll_config_custom() {
    let config = HiResScrollConfig {
        enabled: true,
        inverted: true,
    };
    assert!(config.enabled);
    assert!(config.inverted);
}

#[test]
fn test_button_id_variants() {
    let buttons = [
        ButtonId::LeftClick,
        ButtonId::RightClick,
        ButtonId::MiddleClick,
        ButtonId::Back,
        ButtonId::Forward,
        ButtonId::ThumbGesture,
        ButtonId::WheelModeShift,
    ];
    assert_eq!(buttons.len(), 7);
}

#[test]
fn test_action_none() {
    let action = Action::NoAction;
    assert_eq!(action, Action::NoAction);
}

#[test]
fn test_action_toggle_smartshift() {
    let action = Action::ToggleSmartShift;
    assert_eq!(action, Action::ToggleSmartShift);
}

#[test]
fn traits_test_action_keypress() {
    let action = Action::Keypress {
        keys: vec!["ctrl".to_string(), "c".to_string()],
    };
    match action {
        Action::Keypress { keys } => {
            assert_eq!(keys.len(), 2);
            assert_eq!(keys[0], "ctrl");
            assert_eq!(keys[1], "c");
        }
        _ => panic!("Expected Keypress action"),
    }
}

#[test]
fn test_gesture_direction_variants() {
    let directions = [
        GestureDirection::Up,
        GestureDirection::Down,
        GestureDirection::Left,
        GestureDirection::Right,
        GestureDirection::NoDirection,
    ];
    assert_eq!(directions.len(), 5);
}

#[test]
fn test_gesture_mode_variants() {
    let modes = [GestureMode::OnRelease, GestureMode::OnPress];
    assert_eq!(modes.len(), 2);
}

#[test]
fn test_gesture_creation() {
    let gesture = Gesture {
        direction: GestureDirection::Up,
        mode: GestureMode::OnRelease,
        action: Box::new(Action::NoAction),
    };
    assert_eq!(gesture.direction, GestureDirection::Up);
    assert_eq!(gesture.mode, GestureMode::OnRelease);
    assert_eq!(*gesture.action, Action::NoAction);
}

#[test]
fn test_action_duplicate_deep() {
    let nested = Action::Gestures {
        gestures: vec![
            Gesture {
                direction: GestureDirection::Left,
                mode: GestureMode::OnPress,
                action: Box::new(Action::Keypress {
                    keys: vec!["KEY_LEFTCTRL".to_string(), "KEY_LEFT".to_string()],
                }),
            },
            Gesture {
                direction: GestureDirection::NoDirection,
                mode: GestureMode::OnRelease,
                action: Box::new(Action::ToggleSmartShift),
            },
        ],
    };
    let copy = nested.duplicate();
    assert_eq!(copy, nested);
}

#[test]
fn test_battery_status_conversion() {
    let status = BatteryStatus::Charging;
    assert_eq!(status, BatteryStatus::Charging);
}

#[test]
fn test_battery_status_equality() {
    assert_eq!(BatteryStatus::Charging, BatteryStatus::Charging);
    assert_ne!(BatteryStatus::Charging, BatteryStatus::Discharging);
}

#[test]
fn test_button_id_hashing() {
    let mut buttons = HashSet::new();
    buttons.insert(ButtonId::LeftClick);
    buttons.insert(ButtonId::RightClick);
    buttons.insert(ButtonId::LeftClick);

    assert_eq!(buttons.len(), 2);
    assert!(buttons.contains(&ButtonId::LeftClick));
    assert!(buttons.contains(&ButtonId::RightClick));
}

#[test]
fn test_button_mapping() {
    let mut mappings = HashMap::new();
    mappings.insert(ButtonId::ThumbGesture, Action::ToggleSmartShift);
    assert!(mappings.contains_key(&ButtonId::ThumbGesture));
}

#[test]
fn integration_test_test_action_keypress() {
    let action = Action::Keypress {
        keys: vec!["KEY_A".to_string(), "KEY_B".to_string()],
    };

    match action {
        Action::Keypress { keys } => {
            assert_eq!(keys.len(), 2);
            assert_eq!(keys[0], "KEY_A");
        }
        _ => panic!("Expected Keypress action"),
    }
}

#[test]
fn test_gesture_direction() {
    let directions = [
        GestureDirection::Up,
        GestureDirection::Down,
        GestureDirection::Left,
        GestureDirection::Right,
        GestureDirection::NoDirection,
    ];

    assert_eq!(directions.len(), 5);
}

#[test]
fn test_gesture_mode() {
    let mode_release = GestureMode::OnRelease;
    let mode_press = GestureMode::OnPress;

    assert_ne!(mode_release, mode_press);
}

#[test]
fn integration_test_test_battery_info_creation() {
    let battery = BatteryInfo {
        level: 75,
        status: BatteryStatus::Discharging,
    };

    assert_eq!(battery.level, 75);
    assert_eq!(battery.status, BatteryStatus::Discharging);
}

#[test]
fn test_scroll_wheel_config_custom() {
    let config = ScrollWheelConfig {
        vertical_speed_milli: 10000,
        horizontal_speed_milli: 5000,
        smooth_scrolling: true,
    };
    assert_eq!(config.vertical_speed_milli, 10000);
    assert_eq!(config.horizontal_speed_milli, 5000);
    assert!(config.smooth_scrolling);
}

#[test]
fn test_thumb_wheel_config_custom() {
    let config = ThumbWheelConfig {
        speed_milli: 1000,
        smooth_scrolling: false,
    };
    assert_eq!(config.speed_milli, 1000);
    assert!(!config.smooth_scrolling);
}
