//! Failure taxonomy of the library.
//!
//! `DeviceErrorKind` names the session-level failures (absence, malformed
//! frames, exhausted retries, timeouts).  `DeviceError` is the error type
//! every fallible operation returns; it also carries the device-reported
//! wire error codes, each mapped one-to-one to a failure class.

use vstd::prelude::*;

use crate::constants::{
    ERROR_ALREADY_EXISTS, ERROR_BUSY, ERROR_CONNECT_FAIL, ERROR_INVALID_ADDRESS,
    ERROR_INVALID_SUBID, ERROR_INVALID_VALUE, ERROR_REQUEST_UNAVAILABLE, ERROR_RESOURCE_ERROR,
    ERROR_TOO_MANY_DEVICES, ERROR_UNKNOWN_DEVICE, ERROR_UNSUPPORTED_PARAM, ERROR_WRONG_PIN_CODE,
};

verus! {

/// Session-level failure kinds, before any device-reported code is involved.
#[derive(Debug, Clone, Copy, PartialEq, Eq)]
pub enum DeviceErrorKind {
    NotFound,
    ConnectionFailed,
    InvalidResponse,
    UnsupportedFeature,
    CommandFailed,
    Timeout,
}

/// The error type of every fallible operation of the library.
///
/// The first six variants mirror `DeviceErrorKind`.  `InvalidRequest` is the
/// invalid-request condition of the codec: a request whose parameters do not
/// fit any format.  The last four carry a device-reported wire error code,
/// classified as a bad request, a conflict, an authorization failure or an
/// internal device failure.
#[derive(Debug, Clone, Copy, PartialEq, Eq)]
pub enum DeviceError {
    NotFound,
    ConnectionFailed,
    InvalidResponse,
    UnsupportedFeature,
    CommandFailed,
    Timeout,
    InvalidRequest,
    BadRequest(u8),
    Conflict(u8),
    Unauthorized(u8),
    Internal(u8),
}

/// The error that each session-level failure kind converts into.
pub open spec fn spec_error_of_kind(kind: DeviceErrorKind) -> DeviceError {
    match kind {
        DeviceErrorKind::NotFound => DeviceError::NotFound,
        DeviceErrorKind::ConnectionFailed => DeviceError::ConnectionFailed,
        DeviceErrorKind::InvalidResponse => DeviceError::InvalidResponse,
        DeviceErrorKind::UnsupportedFeature => DeviceError::UnsupportedFeature,
        DeviceErrorKind::CommandFailed => DeviceError::CommandFailed,
        DeviceErrorKind::Timeout => DeviceError::Timeout,
    }
}

impl From<DeviceErrorKind> for DeviceError {
    fn from(kind: DeviceErrorKind) -> (r: Self) {
        match kind {
            DeviceErrorKind::NotFound => DeviceError::NotFound,
            DeviceErrorKind::ConnectionFailed => DeviceError::ConnectionFailed,
            DeviceErrorKind::InvalidResponse => DeviceError::InvalidResponse,
            DeviceErrorKind::UnsupportedFeature => DeviceError::UnsupportedFeature,
            DeviceErrorKind::CommandFailed => DeviceError::CommandFailed,
            DeviceErrorKind::Timeout => DeviceError::Timeout,
        }
    }
}

impl vstd::std_specs::convert::FromSpecImpl<DeviceErrorKind> for DeviceError {
    open spec fn obeys_from_spec() -> bool {
        true
    }

    open spec fn from_spec(kind: DeviceErrorKind) -> Self {
        spec_error_of_kind(kind)
    }
}

/// The failure class that each device-reported wire error code maps to.
///
/// Invalid sub-id, address, value, unavailable request and unsupported
/// parameter are bad requests; already-exists and too-many-devices are
/// conflicts; a wrong PIN is an authorization failure; connect failure,
/// busy and resource errors are internal device failures; an unknown
/// device is absence; every unrecognized code is kept as an internal
/// failure with its code.
pub open spec fn spec_wire_error(code: u8) -> DeviceError {
    if code == ERROR_INVALID_SUBID {
        DeviceError::BadRequest(code)
    } else if code == ERROR_INVALID_ADDRESS {
        DeviceError::BadRequest(code)
    } else if code == ERROR_INVALID_VALUE {
        DeviceError::BadRequest(code)
    } else if code == ERROR_CONNECT_FAIL {
        DeviceError::Internal(code)
    } else if code == ERROR_TOO_MANY_DEVICES {
        DeviceError::Conflict(code)
    } else if code == ERROR_ALREADY_EXISTS {
        DeviceError::Conflict(code)
    } else if code == ERROR_BUSY {
        DeviceError::Internal(code)
    } else if code == ERROR_UNKNOWN_DEVICE {
        DeviceError::NotFound
    } else if code == ERROR_RESOURCE_ERROR {
        DeviceError::Internal(code)
    } else if code == ERROR_REQUEST_UNAVAILABLE {
        DeviceError::BadRequest(code)
    } else if code == ERROR_UNSUPPORTED_PARAM {
        DeviceError::BadRequest(code)
    } else if code == ERROR_WRONG_PIN_CODE {
        DeviceError::Unauthorized(code)
    } else {
        DeviceError::Internal(code)
    }
}

/// Classify a device-reported wire error code.
pub fn map_wire_error(code: u8) -> (r: DeviceError)
    ensures
        r == spec_wire_error(code),
{
    match code {
        ERROR_INVALID_SUBID => DeviceError::BadRequest(code),
        ERROR_INVALID_ADDRESS => DeviceError::BadRequest(code),
        ERROR_INVALID_VALUE => DeviceError::BadRequest(code),
        ERROR_CONNECT_FAIL => DeviceError::Internal(code),
        ERROR_TOO_MANY_DEVICES => DeviceError::Conflict(code),
        ERROR_ALREADY_EXISTS => DeviceError::Conflict(code),
        ERROR_BUSY => DeviceError::Internal(code),
        ERROR_UNKNOWN_DEVICE => DeviceError::NotFound,
        ERROR_RESOURCE_ERROR => DeviceError::Internal(code),
        ERROR_REQUEST_UNAVAILABLE => DeviceError::BadRequest(code),
        ERROR_UNSUPPORTED_PARAM => DeviceError::BadRequest(code),
        ERROR_WRONG_PIN_CODE => DeviceError::Unauthorized(code),
        _ => DeviceError::Internal(code),
    }
}

/// The recognized wire error codes are mapped one-to-one: two distinct
/// recognized codes never classify to the same error.
pub proof fn lemma_wire_error_injective(c1: u8, c2: u8)
    requires
        0x01 <= c1 <= 0x0C,
        0x01 <= c2 <= 0x0C,
        spec_wire_error(c1) == spec_wire_error(c2),
    ensures
        c1 == c2,
{
}

} // verus!
