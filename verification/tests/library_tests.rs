use logi_mx::config::Config;
use logi_mx::constants::{
    ERROR_ALREADY_EXISTS, ERROR_BUSY, ERROR_CONNECT_FAIL, ERROR_INVALID_ADDRESS,
    ERROR_INVALID_SUBID, ERROR_INVALID_VALUE, ERROR_REQUEST_UNAVAILABLE, ERROR_RESOURCE_ERROR,
    ERROR_TOO_MANY_DEVICES, ERROR_UNKNOWN_DEVICE, ERROR_UNSUPPORTED_PARAM, ERROR_WRONG_PIN_CODE,
    PID_BOLT_RECEIVER, PID_MX_MASTER_3S_BT, PID_MX_MASTER_3S_USB, VID_LOGITECH,
};
use logi_mx::device::{index_from_lookup_reply, resolve_hid_target, FeatureCache, HidTarget};
use logi_mx::error::{map_wire_error, DeviceError, DeviceErrorKind};
use logi_mx::packet::HidppPacket;
use logi_mx::lock::{
    lock_file_path, lock_takeover_action, preempt_poll_verdict, LockAction, PollVerdict,
};
use logi_mx::manager::{is_low_battery, DeviceManager};
use logi_mx::mouse::{
    assemble_device_name, battery_from_reply, battery_status_legacy, battery_status_unified,
    dpi_from_be, dpi_from_reply, hires_from_mode, hires_from_reply, hires_mode_byte,
    name_chunk_from_reply, smartshift_from_raw, smartshift_from_reply, smartshift_wire_byte,
};
use logi_mx::scroll::{
    contains_bytes, select_input_source, InputEventData, InputSourceInfo, ScrollHandler,
    EV_RELATIVE, REL_HWHEEL, REL_HWHEEL_HI_RES, REL_WHEEL, REL_WHEEL_HI_RES,
};
use logi_mx::types::{
    BatteryStatus, HiResScrollConfig, ScrollWheelConfig, SmartShiftConfig, ThumbWheelConfig,
};

fn half_speed_handler() -> ScrollHandler {
    ScrollHandler::new(
        ScrollWheelConfig {
            vertical_speed_milli: 500,
            horizontal_speed_milli: 500,
            smooth_scrolling: false,
        },
        ThumbWheelConfig::default(),
    )
}

#[test]
fn test_scroll_half_speed_alternates() {
    // Four detents at half speed emit the sequence 0, 1, 0, 1: the
    // suppressed events carry the fraction over to the next detent.
    let mut handler = half_speed_handler();
    let detent = InputEventData {
        event_type: EV_RELATIVE,
        code: REL_WHEEL,
        value: 1,
    };
    let mut emitted = Vec::new();
    for _ in 0..4 {
        emitted.push(handler.process_event(detent));
    }
    assert_eq!(emitted[0], None);
    assert_eq!(
        emitted[1],
        Some(InputEventData {
            event_type: EV_RELATIVE,
            code: REL_WHEEL,
            value: 1
        })
    );
    assert_eq!(emitted[2], None);
    assert_eq!(
        emitted[3],
        Some(InputEventData {
            event_type: EV_RELATIVE,
            code: REL_WHEEL,
            value: 1
        })
    );
}

#[test]
fn test_scroll_double_speed_and_sign() {
    let mut handler = ScrollHandler::new(
        ScrollWheelConfig {
            vertical_speed_milli: 2500,
            horizontal_speed_milli: 1000,
            smooth_scrolling: false,
        },
        ThumbWheelConfig::default(),
    );
    // Magnitude is discarded: -3 counts as one detent down.
    let out = handler.process_event(InputEventData {
        event_type: EV_RELATIVE,
        code: REL_WHEEL,
        value: -3,
    });
    assert_eq!(
        out,
        Some(InputEventData {
            event_type: EV_RELATIVE,
            code: REL_WHEEL,
            value: -2
        })
    );
    // The remainder -500 carries: the next detent down emits -3.
    let out2 = handler.process_event(InputEventData {
        event_type: EV_RELATIVE,
        code: REL_WHEEL,
        value: -1,
    });
    assert_eq!(
        out2,
        Some(InputEventData {
            event_type: EV_RELATIVE,
            code: REL_WHEEL,
            value: -3
        })
    );
}

#[test]
fn test_scroll_horizontal_axis_independent() {
    let mut handler = half_speed_handler();
    let horizontal = InputEventData {
        event_type: EV_RELATIVE,
        code: REL_HWHEEL,
        value: 1,
    };
    let vertical = InputEventData {
        event_type: EV_RELATIVE,
        code: REL_WHEEL,
        value: 1,
    };
    assert_eq!(handler.process_event(horizontal), None);
    assert_eq!(handler.process_event(vertical), None);
    // Each axis carries its own half-detent now; each completes separately.
    assert_eq!(
        handler.process_event(horizontal),
        Some(InputEventData {
            event_type: EV_RELATIVE,
            code: REL_HWHEEL,
            value: 1
        })
    );
    assert_eq!(
        handler.process_event(vertical),
        Some(InputEventData {
            event_type: EV_RELATIVE,
            code: REL_WHEEL,
            value: 1
        })
    );
}

#[test]
fn test_hires_wheel_codes_never_emit() {
    let mut handler = half_speed_handler();
    for value in [i32::MIN, -120, -1, 0, 1, 120, i32::MAX] {
        let hi = InputEventData {
            event_type: EV_RELATIVE,
            code: REL_WHEEL_HI_RES,
            value,
        };
        let hih = InputEventData {
            event_type: EV_RELATIVE,
            code: REL_HWHEEL_HI_RES,
            value,
        };
        assert_eq!(handler.process_event(hi), None);
        assert_eq!(handler.process_event(hih), None);
    }
}

#[test]
fn test_non_wheel_events_forwarded_unchanged() {
    let mut handler = half_speed_handler();
    let key = InputEventData {
        event_type: 0x01,
        code: 272,
        value: 1,
    };
    let rel_x = InputEventData {
        event_type: EV_RELATIVE,
        code: 0x00,
        value: -5,
    };
    assert_eq!(handler.process_event(key), Some(key));
    assert_eq!(handler.process_event(rel_x), Some(rel_x));
}

#[test]
fn test_zero_value_wheel_event_suppressed() {
    let mut handler = half_speed_handler();
    let still = InputEventData {
        event_type: EV_RELATIVE,
        code: REL_WHEEL,
        value: 0,
    };
    assert_eq!(handler.process_event(still), None);
}

#[test]
fn test_smartshift_roundtrip_disabled() {
    // Whatever threshold is supplied on a disabled write, the read-back is
    // disabled with the default threshold 20.
    for threshold in [0, 1, 20, 30, 254, 255] {
        let written = smartshift_wire_byte(SmartShiftConfig {
            enabled: false,
            threshold,
        });
        let read_back = smartshift_from_raw(written);
        assert_eq!(
            read_back,
            SmartShiftConfig {
                enabled: false,
                threshold: 20
            }
        );
    }
}

#[test]
fn test_smartshift_roundtrip_enabled() {
    let written = smartshift_wire_byte(SmartShiftConfig {
        enabled: true,
        threshold: 30,
    });
    let read_back = smartshift_from_raw(written);
    assert_eq!(
        read_back,
        SmartShiftConfig {
            enabled: true,
            threshold: 30
        }
    );
}

#[test]
fn test_smartshift_raw_edges() {
    assert_eq!(
        smartshift_from_raw(0),
        SmartShiftConfig {
            enabled: false,
            threshold: 20
        }
    );
    assert_eq!(
        smartshift_from_raw(0xFF),
        SmartShiftConfig {
            enabled: false,
            threshold: 20
        }
    );
    assert_eq!(
        smartshift_from_raw(1),
        SmartShiftConfig {
            enabled: true,
            threshold: 1
        }
    );
    assert_eq!(
        smartshift_from_raw(0xFE),
        SmartShiftConfig {
            enabled: true,
            threshold: 0xFE
        }
    );
}

#[test]
fn test_error_mapping() {
    assert_eq!(
        map_wire_error(ERROR_INVALID_SUBID),
        DeviceError::BadRequest(ERROR_INVALID_SUBID)
    );
    assert_eq!(
        map_wire_error(ERROR_INVALID_ADDRESS),
        DeviceError::BadRequest(ERROR_INVALID_ADDRESS)
    );
    assert_eq!(
        map_wire_error(ERROR_INVALID_VALUE),
        DeviceError::BadRequest(ERROR_INVALID_VALUE)
    );
    assert_eq!(
        map_wire_error(ERROR_CONNECT_FAIL),
        DeviceError::Internal(ERROR_CONNECT_FAIL)
    );
    assert_eq!(
        map_wire_error(ERROR_TOO_MANY_DEVICES),
        DeviceError::Conflict(ERROR_TOO_MANY_DEVICES)
    );
    assert_eq!(
        map_wire_error(ERROR_ALREADY_EXISTS),
        DeviceError::Conflict(ERROR_ALREADY_EXISTS)
    );
    assert_eq!(map_wire_error(ERROR_BUSY), DeviceError::Internal(ERROR_BUSY));
    assert_eq!(map_wire_error(ERROR_UNKNOWN_DEVICE), DeviceError::NotFound);
    assert_eq!(
        map_wire_error(ERROR_RESOURCE_ERROR),
        DeviceError::Internal(ERROR_RESOURCE_ERROR)
    );
    assert_eq!(
        map_wire_error(ERROR_REQUEST_UNAVAILABLE),
        DeviceError::BadRequest(ERROR_REQUEST_UNAVAILABLE)
    );
    assert_eq!(
        map_wire_error(ERROR_UNSUPPORTED_PARAM),
        DeviceError::BadRequest(ERROR_UNSUPPORTED_PARAM)
    );
    assert_eq!(
        map_wire_error(ERROR_WRONG_PIN_CODE),
        DeviceError::Unauthorized(ERROR_WRONG_PIN_CODE)
    );
}

#[test]
fn test_all_error_kinds_convert() {
    assert_eq!(DeviceError::from(DeviceErrorKind::NotFound), DeviceError::NotFound);
    assert_eq!(
        DeviceError::from(DeviceErrorKind::ConnectionFailed),
        DeviceError::ConnectionFailed
    );
    assert_eq!(
        DeviceError::from(DeviceErrorKind::InvalidResponse),
        DeviceError::InvalidResponse
    );
    assert_eq!(
        DeviceError::from(DeviceErrorKind::UnsupportedFeature),
        DeviceError::UnsupportedFeature
    );
    assert_eq!(
        DeviceError::from(DeviceErrorKind::CommandFailed),
        DeviceError::CommandFailed
    );
    assert_eq!(DeviceError::from(DeviceErrorKind::Timeout), DeviceError::Timeout);
}

#[test]
fn test_battery_status_codes() {
    assert_eq!(battery_status_unified(0), BatteryStatus::Discharging);
    assert_eq!(battery_status_unified(1), BatteryStatus::Charging);
    assert_eq!(battery_status_unified(2), BatteryStatus::Full);
    assert_eq!(battery_status_unified(3), BatteryStatus::Unknown);
    assert_eq!(battery_status_unified(0xFF), BatteryStatus::Unknown);

    assert_eq!(battery_status_legacy(1), BatteryStatus::Discharging);
    assert_eq!(battery_status_legacy(2), BatteryStatus::Charging);
    assert_eq!(battery_status_legacy(3), BatteryStatus::Full);
    assert_eq!(battery_status_legacy(0), BatteryStatus::Unknown);
    assert_eq!(battery_status_legacy(4), BatteryStatus::Unknown);
}

#[test]
fn test_dpi_big_endian() {
    assert_eq!(dpi_from_be(0x12, 0x34), 0x1234);
    assert_eq!(dpi_from_be(0x00, 0x00), 0);
    assert_eq!(dpi_from_be(0xFF, 0xFF), 0xFFFF);
    assert_eq!(dpi_from_be(0x03, 0xE8), 1000);
}

#[test]
fn test_hires_mode_bytes() {
    assert_eq!(
        hires_mode_byte(HiResScrollConfig {
            enabled: true,
            inverted: true
        }),
        0x02
    );
    assert_eq!(
        hires_mode_byte(HiResScrollConfig {
            enabled: false,
            inverted: false
        }),
        0x00
    );
    let read = hires_from_mode(0x02);
    assert!(read.enabled);
    assert!(!read.inverted);
    let off = hires_from_mode(0x00);
    assert!(!off.enabled);
    assert!(!off.inverted);
}

#[test]
fn test_device_name_fallback_on_empty() {
    let name = assemble_device_name(&Vec::new());
    assert_eq!(name, "Logitech MX Master 3S");
}

#[test]
fn test_device_name_fallback_on_whitespace() {
    let name = assemble_device_name(&vec![0x20, 0x09, 0x0A, 0x20]);
    assert_eq!(name, "Logitech MX Master 3S");
}

#[test]
fn test_device_name_kept_when_reported() {
    let bytes: Vec<u8> = "MX Master 3S".bytes().collect();
    let name = assemble_device_name(&bytes);
    assert_eq!(name, "MX Master 3S");
}

#[test]
fn test_contains_bytes_search() {
    let haystack: Vec<u8> = "Logitech MX Master 3S Mouse".bytes().collect();
    let mouse: Vec<u8> = "Mouse".bytes().collect();
    let pointer: Vec<u8> = "Pointer".bytes().collect();
    let empty: Vec<u8> = Vec::new();
    assert!(contains_bytes(&haystack, &mouse));
    assert!(!contains_bytes(&haystack, &pointer));
    assert!(contains_bytes(&haystack, &empty));
    assert!(!contains_bytes(&empty, &mouse));
}

fn source(name: &str, vendor_id: u16, product_id: u16, has_relative: bool) -> InputSourceInfo {
    InputSourceInfo {
        name: name.bytes().collect(),
        vendor_id,
        product_id,
        has_relative,
    }
}

#[test]
fn test_select_input_source_filters() {
    let sources = vec![
        // Synthetic sink from an earlier run: rejected.
        source("MX Master 3S Virtual Mouse", VID_LOGITECH, PID_MX_MASTER_3S_USB, true),
        // Keyboard role: rejected.
        source("Logitech Keyboard", VID_LOGITECH, PID_BOLT_RECEIVER, true),
        // Wrong vendor: rejected.
        source("Other Mouse", 0x1234, PID_MX_MASTER_3S_USB, true),
        // No relative axes: rejected.
        source("MX Master 3S Mouse", VID_LOGITECH, PID_MX_MASTER_3S_BT, false),
        // The one to grab.
        source("MX Master 3S Mouse", VID_LOGITECH, PID_MX_MASTER_3S_BT, true),
    ];
    assert_eq!(select_input_source(&sources), Some(4));
}

#[test]
fn test_select_input_source_accepts_pointer_role() {
    let sources = vec![source(
        "MX Master 3S Pointer",
        VID_LOGITECH,
        PID_BOLT_RECEIVER,
        true,
    )];
    assert_eq!(select_input_source(&sources), Some(0));
}

#[test]
fn test_select_input_source_none_when_unmatched() {
    let sources = vec![
        source("MX Master 3S Virtual Mouse", VID_LOGITECH, PID_MX_MASTER_3S_USB, true),
        source("Some Keyboard", 0x046D, 0x1111, true),
    ];
    assert_eq!(select_input_source(&sources), None);
    assert_eq!(select_input_source(&Vec::new()), None);
}

#[test]
fn test_resolve_hid_target_not_found() {
    // No enumerated entry matches the vendor/product pair: NotFound.
    let targets = vec![
        HidTarget {
            vendor_id: 0x1234,
            product_id: 0x5678,
            interface_number: 2,
        },
        HidTarget {
            vendor_id: VID_LOGITECH,
            product_id: 0x9999,
            interface_number: -1,
        },
    ];
    assert_eq!(
        resolve_hid_target(&targets, VID_LOGITECH, PID_BOLT_RECEIVER),
        Err(DeviceError::NotFound)
    );
    assert_eq!(
        resolve_hid_target(&Vec::new(), VID_LOGITECH, PID_BOLT_RECEIVER),
        Err(DeviceError::NotFound)
    );
}

#[test]
fn test_resolve_hid_target_picks_protocol_interface() {
    let targets = vec![
        // Right identity, wrong interface: skipped.
        HidTarget {
            vendor_id: VID_LOGITECH,
            product_id: PID_BOLT_RECEIVER,
            interface_number: 0,
        },
        HidTarget {
            vendor_id: VID_LOGITECH,
            product_id: PID_BOLT_RECEIVER,
            interface_number: 2,
        },
    ];
    assert_eq!(resolve_hid_target(&targets, VID_LOGITECH, PID_BOLT_RECEIVER), Ok(1));

    let unspecified = vec![HidTarget {
        vendor_id: VID_LOGITECH,
        product_id: PID_MX_MASTER_3S_USB,
        interface_number: -1,
    }];
    assert_eq!(
        resolve_hid_target(&unspecified, VID_LOGITECH, PID_MX_MASTER_3S_USB),
        Ok(0)
    );
}

#[test]
fn test_feature_cache() {
    let mut cache = FeatureCache::new();
    assert_eq!(cache.get(0x2110), None);
    cache.put(0x2110, 0x05);
    assert_eq!(cache.get(0x2110), Some(0x05));
    // A second read is answered the same, and other ids stay absent.
    assert_eq!(cache.get(0x2110), Some(0x05));
    assert_eq!(cache.get(0x1000), None);
}

#[test]
fn test_get_lock_file_path() {
    let path = lock_file_path(None, None);
    assert_eq!(path, "/tmp/logi-mx-daemon.lock");
    let runtime = lock_file_path(Some("/run/user/1000".to_string()), None);
    assert_eq!(runtime, "/run/user/1000/logi-mx-daemon.lock");
    let tmp = lock_file_path(None, Some("/var/tmp".to_string()));
    assert_eq!(tmp, "/var/tmp/logi-mx-daemon.lock");
}

#[test]
fn test_lock_takeover_decisions() {
    assert_eq!(lock_takeover_action(true, None, 42), LockAction::Proceed);
    assert_eq!(lock_takeover_action(true, Some(7), 42), LockAction::Proceed);
    assert_eq!(lock_takeover_action(false, Some(42), 42), LockAction::Reuse);
    assert_eq!(lock_takeover_action(false, Some(7), 42), LockAction::Preempt(7));
    assert_eq!(lock_takeover_action(false, None, 42), LockAction::Proceed);
}

#[test]
fn test_preempt_poll_deadline() {
    assert_eq!(preempt_poll_verdict(0, true), PollVerdict::Acquired);
    assert_eq!(preempt_poll_verdict(9, true), PollVerdict::Acquired);
    assert_eq!(preempt_poll_verdict(0, false), PollVerdict::Retry);
    assert_eq!(preempt_poll_verdict(8, false), PollVerdict::Retry);
    assert_eq!(preempt_poll_verdict(9, false), PollVerdict::GiveUp);
}

#[test]
fn test_low_battery_threshold() {
    assert!(is_low_battery(0));
    assert!(is_low_battery(9));
    assert!(!is_low_battery(10));
    assert!(!is_low_battery(100));
}

#[test]
fn test_default_config() {
    let config = Config::default();
    assert!(!config.devices.is_empty());
}

#[test]
fn test_device_config_validation() {
    let config = Config::default();
    assert!(!config.devices[0].name.is_empty());
    assert!(config.devices[0].dpi > 0);
    assert!(config.devices[0].dpi <= 8000);
}

#[test]
fn test_find_device_config_by_name() {
    let config = Config::default();
    let known = "MX Master 3S".to_string();
    let unknown = "Some Other Device".to_string();
    assert_eq!(config.find_device_config(&known), Some(0));
    assert_eq!(config.find_device_config(&unknown), None);
}

#[test]
fn test_manager_removal_idempotent() {
    let mut manager = DeviceManager::new(Config::default());
    let path = "/dev/hidraw0".to_string();
    manager.handle_device_removed(&path);
    manager.handle_device_removed(&path);
    assert_eq!(manager.battery_sweep().len(), 0);
}

#[test]
fn test_unknown_error_code() {
    assert_eq!(map_wire_error(0xFF), DeviceError::Internal(0xFF));
    assert_eq!(map_wire_error(0xEE), DeviceError::Internal(0xEE));
}

#[test]
fn test_result_type_ok() {
    let result: Result<i32, DeviceError> = Ok(42);
    assert!(result.is_ok());
    assert_eq!(result.unwrap(), 42);
}

#[test]
fn test_result_type_err() {
    let result: Result<i32, DeviceError> = Err(DeviceError::from(DeviceErrorKind::NotFound));
    assert!(result.is_err());
}

#[test]
fn test_error_kind_equality() {
    assert_eq!(DeviceErrorKind::NotFound, DeviceErrorKind::NotFound);
    assert_ne!(DeviceErrorKind::NotFound, DeviceErrorKind::Timeout);
}

#[test]
fn test_error_kind_copy() {
    let kind1 = DeviceErrorKind::Timeout;
    let kind2 = kind1;
    assert_eq!(kind1, kind2);
}

#[test]
fn test_error_kind_debug() {
    let kind = DeviceErrorKind::InvalidResponse;
    let debug = format!("{:?}", kind);
    assert!(debug.contains("InvalidResponse"));
}

#[test]
fn test_all_error_kinds() {
    let kinds = vec![
        DeviceErrorKind::NotFound,
        DeviceErrorKind::ConnectionFailed,
        DeviceErrorKind::InvalidResponse,
        DeviceErrorKind::UnsupportedFeature,
        DeviceErrorKind::CommandFailed,
        DeviceErrorKind::Timeout,
    ];
    assert_eq!(kinds.len(), 6);
}

#[test]
fn test_scroll_handler_new() {
    let scroll_config = ScrollWheelConfig {
        vertical_speed_milli: 2500,
        horizontal_speed_milli: 1500,
        smooth_scrolling: true,
    };
    let thumbwheel_config = ThumbWheelConfig {
        speed_milli: 3000,
        smooth_scrolling: false,
    };

    let handler = ScrollHandler::new(scroll_config, thumbwheel_config);

    assert_eq!(handler.config().vertical_speed_milli, 2500);
    assert_eq!(handler.config().horizontal_speed_milli, 1500);
    assert!(handler.config().smooth_scrolling);
    assert_eq!(handler.thumbwheel_config().speed_milli, 3000);
    assert!(!handler.thumbwheel_config().smooth_scrolling);
}

#[test]
fn test_scroll_handler_with_defaults() {
    let scroll_config = ScrollWheelConfig::default();
    let thumbwheel_config = ThumbWheelConfig::default();

    let handler = ScrollHandler::new(scroll_config, thumbwheel_config);

    assert_eq!(handler.config().vertical_speed_milli, 1000);
    assert_eq!(handler.config().horizontal_speed_milli, 1000);
    assert!(!handler.config().smooth_scrolling);
    assert_eq!(handler.thumbwheel_config().speed_milli, 1000);
    assert!(handler.thumbwheel_config().smooth_scrolling);
}

#[test]
fn test_scroll_handler_fractional_speeds() {
    let scroll_config = ScrollWheelConfig {
        vertical_speed_milli: 500,
        horizontal_speed_milli: 700,
        smooth_scrolling: false,
    };
    let thumbwheel_config = ThumbWheelConfig {
        speed_milli: 300,
        smooth_scrolling: true,
    };

    let handler = ScrollHandler::new(scroll_config, thumbwheel_config);

    assert_eq!(handler.config().vertical_speed_milli, 500);
    assert_eq!(handler.config().horizontal_speed_milli, 700);
    assert_eq!(handler.thumbwheel_config().speed_milli, 300);
}

#[test]
fn test_constants() {
    assert_eq!(VID_LOGITECH, 0x046D);
    assert_eq!(PID_MX_MASTER_3S_USB, 0x4082);
    assert_eq!(PID_MX_MASTER_3S_BT, 0xB034);
    assert_eq!(PID_BOLT_RECEIVER, 0xC548);
}

#[test]
fn test_empty_config_devices() {
    let mut config = Config::default();
    config.devices.clear();
    assert_eq!(config.devices.len(), 0);
}

#[test]
fn test_process_events_keeps_order() {
    let mut handler = half_speed_handler();
    let key_down = InputEventData {
        event_type: 0x01,
        code: 272,
        value: 1,
    };
    let detent = InputEventData {
        event_type: EV_RELATIVE,
        code: REL_WHEEL,
        value: 1,
    };
    let hi_res = InputEventData {
        event_type: EV_RELATIVE,
        code: REL_WHEEL_HI_RES,
        value: 120,
    };
    let batch = vec![detent, key_down, hi_res, detent, key_down];
    let out = handler.process_events(&batch);
    // First detent suppressed, hi-res dropped, second detent completes the
    // whole unit; the key events pass in their places.
    assert_eq!(
        out,
        vec![
            key_down,
            InputEventData {
                event_type: EV_RELATIVE,
                code: REL_WHEEL,
                value: 1
            },
            key_down,
        ]
    );
}

#[test]
fn test_device_name_fallback_on_wide_whitespace() {
    // Next-line and no-break-space bytes count as white space too.
    let name = assemble_device_name(&vec![0x85, 0xA0, 0x20]);
    assert_eq!(name, "Logitech MX Master 3S");
}

#[test]
fn test_index_from_lookup_reply() {
    let supported = HidppPacket::new_short(0xFF, 0x00, 0x00, 0x05, [0x06, 0x00, 0x00]);
    assert_eq!(index_from_lookup_reply(&supported), Ok(0x06));
    let unsupported = HidppPacket::new_short(0xFF, 0x00, 0x00, 0x05, [0x00, 0x00, 0x00]);
    assert_eq!(
        index_from_lookup_reply(&unsupported),
        Err(DeviceError::UnsupportedFeature)
    );
}

#[test]
fn test_reply_decoders() {
    let battery = HidppPacket::new_short(0xFF, 0x07, 0x00, 0x05, [85, 1, 0]);
    let unified = battery_from_reply(&battery, false);
    assert_eq!(unified.level, 85);
    assert_eq!(unified.status, BatteryStatus::Charging);
    let legacy = battery_from_reply(&battery, true);
    assert_eq!(legacy.status, BatteryStatus::Discharging);

    let dpi = HidppPacket::new_short(0xFF, 0x08, 0x02, 0x05, [0x00, 0x06, 0x40]);
    assert_eq!(dpi_from_reply(&dpi), 1600);

    let ratchet = HidppPacket::new_short(0xFF, 0x09, 0x00, 0x05, [0x02, 30, 0x00]);
    assert_eq!(
        smartshift_from_reply(&ratchet),
        SmartShiftConfig {
            enabled: true,
            threshold: 30
        }
    );

    let mode = HidppPacket::new_short(0xFF, 0x0A, 0x01, 0x05, [0x02, 0x00, 0x00]);
    let hires = hires_from_reply(&mode);
    assert!(hires.enabled);
    assert!(!hires.inverted);
}

#[test]
fn test_name_chunk_from_reply() {
    // A Long reply reporting a 12-byte name: parameter byte 0 is the
    // total, the chunk bytes follow.
    let reply = HidppPacket::new_long(
        0xFF,
        0x05,
        0x00,
        0x05,
        [12, 77, 88, 32, 77, 97, 115, 116, 101, 114, 32, 51, 83, 0, 0, 0],
    );
    let (total, chunk, terminated) = name_chunk_from_reply(&reply, 0);
    assert_eq!(total, 12);
    assert_eq!(chunk, "MX Master 3S".bytes().collect::<Vec<u8>>());
    assert!(!terminated);

    // An embedded zero ends the name early.
    let with_zero =
        HidppPacket::new_long(0xFF, 0x05, 0x00, 0x05, [12, 77, 88, 0, 99, 99, 99, 99, 99, 99, 99, 99, 99, 0, 0, 0]);
    let (_, early, stopped) = name_chunk_from_reply(&with_zero, 0);
    assert_eq!(early, vec![77, 88]);
    assert!(stopped);

    // Only the part of the reported total past the offset is usable.
    let (_, limited, _) = name_chunk_from_reply(&reply, 10);
    assert_eq!(limited, vec![77, 88]);

    // An offset at or past the total collects nothing.
    let (_, nothing, ended) = name_chunk_from_reply(&reply, 12);
    assert_eq!(nothing, Vec::<u8>::new());
    assert!(!ended);
}
