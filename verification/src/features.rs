//! Logical feature identifiers and the per-feature function ids.
//!
//! A `Feature` pairs a 16-bit feature id with the per-session index a lookup
//! resolved it to.  The function enums name the wire function ids of each
//! feature; `code` gives the four-bit value that goes into a frame.

use vstd::prelude::*;

use crate::constants::{FEATURE_ROOT, ROOT_INDEX};

verus! {

#[derive(Debug, Clone, Copy, PartialEq, Eq)]
pub struct Feature {
    pub id: u16,
    pub index: u8,
}

impl Feature {
    pub fn new(id: u16, index: u8) -> (r: Self)
        ensures
            r == (Feature { id, index }),
    {
        Self { id, index }
    }

    /// The root feature, always resolved at index 0.
    pub fn root() -> (r: Self)
        ensures
            r == (Feature { id: FEATURE_ROOT, index: ROOT_INDEX }),
    {
        Self::new(FEATURE_ROOT, ROOT_INDEX)
    }
}

#[derive(Debug, Clone, Copy, PartialEq, Eq)]
pub enum RootFunction {
    GetFeature,
    Ping,
}

impl RootFunction {
    pub open spec fn spec_code(self) -> u8 {
        match self {
            RootFunction::GetFeature => 0x00,
            RootFunction::Ping => 0x01,
        }
    }

    /// The wire function id of this root-feature function.
    pub fn code(self) -> (r: u8)
        ensures
            r == self.spec_code(),
    {
        match self {
            RootFunction::GetFeature => 0x00,
            RootFunction::Ping => 0x01,
        }
    }
}

#[derive(Debug, Clone, Copy, PartialEq, Eq)]
pub enum BatteryFunction {
    GetStatus,
    GetCapability,
}

impl BatteryFunction {
    pub open spec fn spec_code(self) -> u8 {
        match self {
            BatteryFunction::GetStatus => 0x00,
            BatteryFunction::GetCapability => 0x01,
        }
    }

    /// The wire function id of this battery-feature function.
    pub fn code(self) -> (r: u8)
        ensures
            r == self.spec_code(),
    {
        match self {
            BatteryFunction::GetStatus => 0x00,
            BatteryFunction::GetCapability => 0x01,
        }
    }
}

#[derive(Debug, Clone, Copy, PartialEq, Eq)]
pub enum DpiFunction {
    GetSensorCount,
    GetSensorDpiList,
    GetSensorDpi,
    SetSensorDpi,
}

impl DpiFunction {
    pub open spec fn spec_code(self) -> u8 {
        match self {
            DpiFunction::GetSensorCount => 0x00,
            DpiFunction::GetSensorDpiList => 0x01,
            DpiFunction::GetSensorDpi => 0x02,
            DpiFunction::SetSensorDpi => 0x03,
        }
    }

    /// The wire function id of this DPI-feature function.
    pub fn code(self) -> (r: u8)
        ensures
            r == self.spec_code(),
    {
        match self {
            DpiFunction::GetSensorCount => 0x00,
            DpiFunction::GetSensorDpiList => 0x01,
            DpiFunction::GetSensorDpi => 0x02,
            DpiFunction::SetSensorDpi => 0x03,
        }
    }
}

#[derive(Debug, Clone, Copy, PartialEq, Eq)]
pub enum SmartShiftFunction {
    GetRatchetControlMode,
    SetRatchetControlMode,
}

impl SmartShiftFunction {
    pub open spec fn spec_code(self) -> u8 {
        match self {
            SmartShiftFunction::GetRatchetControlMode => 0x00,
            SmartShiftFunction::SetRatchetControlMode => 0x01,
        }
    }

    /// The wire function id of this ratchet-control function.
    pub fn code(self) -> (r: u8)
        ensures
            r == self.spec_code(),
    {
        match self {
            SmartShiftFunction::GetRatchetControlMode => 0x00,
            SmartShiftFunction::SetRatchetControlMode => 0x01,
        }
    }
}

#[derive(Debug, Clone, Copy, PartialEq, Eq)]
pub enum HiresWheelFunction {
    GetCapabilities,
    GetMode,
    SetMode,
    GetRatchetSwitchState,
}

impl HiresWheelFunction {
    pub open spec fn spec_code(self) -> u8 {
        match self {
            HiresWheelFunction::GetCapabilities => 0x00,
            HiresWheelFunction::GetMode => 0x01,
            HiresWheelFunction::SetMode => 0x02,
            HiresWheelFunction::GetRatchetSwitchState => 0x03,
        }
    }

    /// The wire function id of this hi-res-wheel function.
    pub fn code(self) -> (r: u8)
        ensures
            r == self.spec_code(),
    {
        match self {
            HiresWheelFunction::GetCapabilities => 0x00,
            HiresWheelFunction::GetMode => 0x01,
            HiresWheelFunction::SetMode => 0x02,
            HiresWheelFunction::GetRatchetSwitchState => 0x03,
        }
    }
}

#[derive(Debug, Clone, Copy, PartialEq, Eq)]
pub enum ReprogControlsFunction {
    GetControlCount,
    GetControlInfo,
    GetControlReporting,
    SetControlReporting,
}

impl ReprogControlsFunction {
    pub open spec fn spec_code(self) -> u8 {
        match self {
            ReprogControlsFunction::GetControlCount => 0x00,
            ReprogControlsFunction::GetControlInfo => 0x01,
            ReprogControlsFunction::GetControlReporting => 0x02,
            ReprogControlsFunction::SetControlReporting => 0x03,
        }
    }

    /// The wire function id of this reprogrammable-controls function.
    pub fn code(self) -> (r: u8)
        ensures
            r == self.spec_code(),
    {
        match self {
            ReprogControlsFunction::GetControlCount => 0x00,
            ReprogControlsFunction::GetControlInfo => 0x01,
            ReprogControlsFunction::GetControlReporting => 0x02,
            ReprogControlsFunction::SetControlReporting => 0x03,
        }
    }
}

} // verus!
