use logi_mx::constants::{FEATURE_ROOT, ROOT_INDEX};
use logi_mx::features::{
    BatteryFunction, DpiFunction, Feature, HiresWheelFunction, ReprogControlsFunction,
    RootFunction, SmartShiftFunction,
};

#[test]
fn test_feature_creation() {
    let feature = Feature::new(0x1234, 0x05);
    assert_eq!(feature.id, 0x1234);
    assert_eq!(feature.index, 0x05);
}

#[test]
fn test_feature_root() {
    let root = Feature::root();
    assert_eq!(root.id, FEATURE_ROOT);
    assert_eq!(root.index, ROOT_INDEX);
}

#[test]
fn test_root_function_values() {
    assert_eq!(RootFunction::GetFeature.code(), 0x00);
    assert_eq!(RootFunction::Ping.code(), 0x01);
}

#[test]
fn test_battery_function_values() {
    assert_eq!(BatteryFunction::GetStatus.code(), 0x00);
    assert_eq!(BatteryFunction::GetCapability.code(), 0x01);
}

#[test]
fn test_dpi_function_values() {
    assert_eq!(DpiFunction::GetSensorCount.code(), 0x00);
    assert_eq!(DpiFunction::GetSensorDpiList.code(), 0x01);
    assert_eq!(DpiFunction::GetSensorDpi.code(), 0x02);
    assert_eq!(DpiFunction::SetSensorDpi.code(), 0x03);
}

#[test]
fn test_smartshift_function_values() {
    assert_eq!(SmartShiftFunction::GetRatchetControlMode.code(), 0x00);
    assert_eq!(SmartShiftFunction::SetRatchetControlMode.code(), 0x01);
}

#[test]
fn test_hires_wheel_function_values() {
    assert_eq!(HiresWheelFunction::GetCapabilities.code(), 0x00);
    assert_eq!(HiresWheelFunction::GetMode.code(), 0x01);
    assert_eq!(HiresWheelFunction::SetMode.code(), 0x02);
    assert_eq!(HiresWheelFunction::GetRatchetSwitchState.code(), 0x03);
}

#[test]
fn test_reprog_controls_function_values() {
    assert_eq!(ReprogControlsFunction::GetControlCount.code(), 0x00);
    assert_eq!(ReprogControlsFunction::GetControlInfo.code(), 0x01);
    assert_eq!(ReprogControlsFunction::GetControlReporting.code(), 0x02);
    assert_eq!(ReprogControlsFunction::SetControlReporting.code(), 0x03);
}

#[test]
fn test_feature_equality() {
    let f1 = Feature::new(0x1000, 0x01);
    let f2 = Feature::new(0x1000, 0x01);
    assert_eq!(f1, f2);
}

#[test]
fn test_feature_inequality() {
    let f1 = Feature::new(0x1000, 0x01);
    let f2 = Feature::new(0x1000, 0x02);
    assert_ne!(f1, f2);
}

#[test]
fn test_feature_copy() {
    let f1 = Feature::new(0x2000, 0x03);
    let f2 = f1;
    assert_eq!(f1, f2);
}
