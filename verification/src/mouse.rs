//! The concrete capability surface of the pointing device.
//!
//! `MxMaster3s` composes one protocol session with process-local state for
//! the capabilities that have no on-device representation (button mapping,
//! scroll and thumbwheel tuning).  The byte-level conversions between
//! configuration values and wire parameters are pure functions with exact
//! contracts; every accessor that talks to hardware surfaces session
//! failures unchanged, except the battery fallback path.

use vstd::prelude::*;

use crate::constants::{
    FEATURE_ADJUSTABLE_DPI, FEATURE_BATTERY_STATUS, FEATURE_DEVICE_NAME, FEATURE_HIRES_WHEEL,
    FEATURE_SMART_SHIFT, FEATURE_UNIFIED_BATTERY, PID_BOLT_RECEIVER, PID_MX_MASTER_3S_BT,
    PID_MX_MASTER_3S_USB, VID_LOGITECH,
};
use crate::device::{spec_request_bytes, HidppDevice};
use crate::error::DeviceError;
use crate::features::{BatteryFunction, DpiFunction, HiresWheelFunction, SmartShiftFunction};
use crate::packet::{lemma_decode_deterministic, spec_decoded, spec_parseable, HidppPacket};
use crate::types::{
    Action, BatteryInfo, BatteryStatus, ButtonId, HiResScrollConfig, ScrollWheelConfig,
    SmartShiftConfig, ThumbWheelConfig,
};

verus! {

/// The battery status that a unified-battery status byte decodes to:
/// 0, 1, 2 are discharging, charging, full; everything else is unknown.
pub open spec fn spec_battery_status_unified(code: u8) -> BatteryStatus {
    if code == 0 {
        BatteryStatus::Discharging
    } else if code == 1 {
        BatteryStatus::Charging
    } else if code == 2 {
        BatteryStatus::Full
    } else {
        BatteryStatus::Unknown
    }
}

pub fn battery_status_unified(code: u8) -> (r: BatteryStatus)
    ensures
        r == spec_battery_status_unified(code),
{
    match code {
        0 => BatteryStatus::Discharging,
        1 => BatteryStatus::Charging,
        2 => BatteryStatus::Full,
        _ => BatteryStatus::Unknown,
    }
}

/// The battery status that a legacy battery-status byte decodes to:
/// 1, 2, 3 are discharging, charging, full; everything else is unknown.
pub open spec fn spec_battery_status_legacy(code: u8) -> BatteryStatus {
    if code == 1 {
        BatteryStatus::Discharging
    } else if code == 2 {
        BatteryStatus::Charging
    } else if code == 3 {
        BatteryStatus::Full
    } else {
        BatteryStatus::Unknown
    }
}

pub fn battery_status_legacy(code: u8) -> (r: BatteryStatus)
    ensures
        r == spec_battery_status_legacy(code),
{
    match code {
        1 => BatteryStatus::Discharging,
        2 => BatteryStatus::Charging,
        3 => BatteryStatus::Full,
        _ => BatteryStatus::Unknown,
    }
}

/// The disengage-threshold byte written for a SmartShift configuration:
/// the threshold itself when enabled with a positive threshold, else the
/// disabled sentinel `0xFF`.
pub open spec fn spec_smartshift_wire_byte(config: SmartShiftConfig) -> u8 {
    if config.enabled && config.threshold > 0 {
        config.threshold
    } else {
        0xFF
    }
}

pub fn smartshift_wire_byte(config: SmartShiftConfig) -> (r: u8)
    ensures
        r == spec_smartshift_wire_byte(config),
{
    if config.enabled && config.threshold > 0 {
        config.threshold
    } else {
        0xFF
    }
}

/// The SmartShift configuration a raw disengage-threshold byte reads back
/// as: enabled exactly when the byte is strictly between 0 and `0xFF`, with
/// the byte as threshold; otherwise disabled with the default threshold 20.
pub open spec fn spec_smartshift_from_raw(raw: u8) -> SmartShiftConfig {
    SmartShiftConfig {
        enabled: 0 < raw < 0xFF,
        threshold: if 0 < raw < 0xFF {
            raw
        } else {
            20
        },
    }
}

pub fn smartshift_from_raw(raw: u8) -> (r: SmartShiftConfig)
    ensures
        r == spec_smartshift_from_raw(raw),
{
    let enabled = 0 < raw && raw < 0xFF;
    SmartShiftConfig {
        enabled,
        threshold: if enabled {
            raw
        } else {
            20
        },
    }
}

/// Law: writing a disabled SmartShift configuration and reading it back
/// yields disabled with the default threshold 20, whatever threshold was
/// supplied on write.
pub proof fn lemma_smartshift_roundtrip_disabled(config: SmartShiftConfig)
    requires
        !config.enabled,
    ensures
        spec_smartshift_from_raw(spec_smartshift_wire_byte(config)) == (SmartShiftConfig {
            enabled: false,
            threshold: 20,
        }),
{
}

/// Law: writing an enabled SmartShift configuration whose threshold lies
/// strictly between 0 and `0xFF` and reading it back yields it unchanged.
/// (A threshold of 0 writes the disabled sentinel, and `0xFF` is the
/// sentinel itself: both read back as disabled.)
pub proof fn lemma_smartshift_roundtrip_enabled(config: SmartShiftConfig)
    requires
        config.enabled,
        0 < config.threshold < 0xFF,
    ensures
        spec_smartshift_from_raw(spec_smartshift_wire_byte(config)) == config,
{
}

/// The mode byte written for a hi-res scroll configuration: `0x02` enables
/// hi-res mode, `0x00` disables it.
pub open spec fn spec_hires_mode_byte(config: HiResScrollConfig) -> u8 {
    if config.enabled {
        0x02
    } else {
        0x00
    }
}

pub fn hires_mode_byte(config: HiResScrollConfig) -> (r: u8)
    ensures
        r == spec_hires_mode_byte(config),
{
    if config.enabled {
        0x02
    } else {
        0x00
    }
}

/// The hi-res scroll configuration a mode byte reads back as.  The device
/// does not expose the inverted flag on read, so it is always reported
/// `false`.
pub open spec fn spec_hires_from_mode(mode: u8) -> HiResScrollConfig {
    HiResScrollConfig { enabled: mode == 0x02, inverted: false }
}

pub fn hires_from_mode(mode: u8) -> (r: HiResScrollConfig)
    ensures
        r == spec_hires_from_mode(mode),
{
    HiResScrollConfig { enabled: mode == 0x02, inverted: false }
}

/// The DPI value two big-endian bytes decode to.
pub open spec fn spec_dpi_from_be(hi: u8, lo: u8) -> u16 {
    (hi * 256 + lo) as u16
}

pub fn dpi_from_be(hi: u8, lo: u8) -> (r: u16)
    ensures
        r == spec_dpi_from_be(hi, lo),
{
    (hi as u16) * 256 + (lo as u16)
}

/// Law: splitting a DPI value into its two big-endian bytes and decoding
/// them reproduces the value.
pub proof fn lemma_dpi_bytes_roundtrip(dpi: u16)
    ensures
        spec_dpi_from_be((dpi >> 8) as u8, (dpi & 0xFF) as u8) == dpi,
{
    assert(((dpi >> 8) as u8) * 256 + ((dpi & 0xFF) as u8) == dpi) by (bit_vector);
}

/// The white-space characters a name byte can turn into: horizontal tab
/// through carriage return, space, next line, no-break space.
pub open spec fn spec_is_space_byte(b: u8) -> bool {
    b == 0x09 || b == 0x0A || b == 0x0B || b == 0x0C || b == 0x0D || b == 0x20 || b == 0x85 || b
        == 0xA0
}

fn is_space_byte(b: u8) -> (r: bool)
    ensures
        r == spec_is_space_byte(b),
{
    b == 0x09 || b == 0x0A || b == 0x0B || b == 0x0C || b == 0x0D || b == 0x20 || b == 0x85 || b
        == 0xA0
}

pub open spec fn spec_is_space_char(c: char) -> bool {
    (c as u32) == 0x09 || (c as u32) == 0x0A || (c as u32) == 0x0B || (c as u32) == 0x0C || (
    c as u32) == 0x0D || (c as u32) == 0x20 || (c as u32) == 0x85 || (c as u32) == 0xA0
}

/// A byte sequence is blank when it is empty or all white space.
pub open spec fn spec_blank_bytes(s: Seq<u8>) -> bool {
    forall|i: int| 0 <= i < s.len() ==> spec_is_space_byte(#[trigger] s[i])
}

/// A character sequence is blank when it is empty or all white space.
pub open spec fn spec_blank_chars(s: Seq<char>) -> bool {
    forall|i: int| 0 <= i < s.len() ==> spec_is_space_char(#[trigger] s[i])
}

/// The characters that collected name bytes spell.
pub open spec fn spec_name_chars(s: Seq<u8>) -> Seq<char> {
    s.map_values(|b: u8| b as char)
}

/// The hard-coded generic name used when the device reports no usable one.
pub open spec fn spec_fallback_name() -> Seq<char> {
    "Logitech MX Master 3S"@
}

/// The name that collected bytes assemble to: their characters, or the
/// generic fallback when they are empty or all white space.
pub open spec fn spec_assembled_name(s: Seq<u8>) -> Seq<char> {
    if spec_blank_bytes(s) {
        spec_fallback_name()
    } else {
        spec_name_chars(s)
    }
}

/// Relies on `String::push`: appends one character to the string.
#[verifier::external_body]
fn push_char(s: &mut String, c: char)
    ensures
        final(s)@ == old(s)@.push(c),
{
    s.push(c);
}

/// An assembled name is never blank: the fallback starts with a letter,
/// and a non-blank byte sequence keeps its non-space character.
pub proof fn lemma_assembled_name_not_blank(s: Seq<u8>)
    ensures
        !spec_blank_chars(spec_assembled_name(s)),
{
    if spec_blank_bytes(s) {
        reveal_strlit("Logitech MX Master 3S");
        assert(spec_fallback_name()[0] == 'L');
        assert(!spec_is_space_char(spec_fallback_name()[0]));
    } else {
        let i = choose|i: int| 0 <= i < s.len() && !spec_is_space_byte(#[trigger] s[i]);
        assert(spec_name_chars(s)[i] == s[i] as char);
        assert(!spec_is_space_char(s[i] as char));
    }
}

/// The usable name bytes of one chunk: the zero-free prefix of the first
/// `limit` bytes.
pub open spec fn spec_take_until_zero(s: Seq<u8>, limit: int) -> Seq<u8>
    decreases limit,
{
    if limit <= 0 || s.len() == 0 {
        Seq::empty()
    } else if s[0] == 0 {
        Seq::empty()
    } else {
        seq![s[0]] + spec_take_until_zero(s.drop_first(), limit - 1)
    }
}

/// Whether a zero byte ends the name within the first `limit` bytes.
pub open spec fn spec_zero_terminated(s: Seq<u8>, limit: int) -> bool
    decreases limit,
{
    if limit <= 0 || s.len() == 0 {
        false
    } else if s[0] == 0 {
        true
    } else {
        spec_zero_terminated(s.drop_first(), limit - 1)
    }
}

/// One pagination step of the name read, decoded from one reply: the
/// reported total length (parameter byte 0), this chunk's usable name
/// bytes (the zero-free prefix of parameter bytes 1 onward, at most the
/// part of the reported total that lies past the offset), and whether an
/// embedded zero terminator ended the name.
pub fn name_chunk_from_reply(reply: &HidppPacket, offset: usize) -> (r: (usize, Vec<u8>, bool))
    ensures
        r.0 == reply.spec_parameters()[0],
        ({
            let chunk = reply.spec_parameters().drop_first();
            let remaining = if reply.spec_parameters()[0] >= offset {
                reply.spec_parameters()[0] - offset
            } else {
                0
            };
            r.1@ == spec_take_until_zero(chunk, remaining) && r.2 == spec_zero_terminated(
                chunk,
                remaining,
            )
        }),
{
    let pv = reply.parameters_vec();
    let total = pv[0] as usize;
    let remaining: usize = if total >= offset {
        total - offset
    } else {
        0
    };
    let ghost chunk = reply.spec_parameters().drop_first();
    let mut collected: Vec<u8> = Vec::new();
    let mut terminated = false;
    let mut k: usize = 1;
    proof {
        assert(chunk.skip(0) =~= chunk);
    }
    while k < pv.len() && k - 1 < remaining && !terminated
        invariant
            pv@ == reply.spec_parameters(),
            pv@.len() == 3 || pv@.len() == 16,
            chunk == reply.spec_parameters().drop_first(),
            1 <= k <= pv@.len(),
            k - 1 <= remaining,
            !terminated ==> spec_take_until_zero(chunk, remaining as int) == collected@
                + spec_take_until_zero(chunk.skip(k - 1), remaining - (k - 1)),
            !terminated ==> spec_zero_terminated(chunk, remaining as int) == spec_zero_terminated(
                chunk.skip(k - 1),
                remaining - (k - 1),
            ),
            terminated ==> collected@ == spec_take_until_zero(chunk, remaining as int)
                && spec_zero_terminated(chunk, remaining as int),
        decreases pv@.len() - k,
    {
        let b = pv[k];
        proof {
            assert(chunk.skip(k - 1)[0] == chunk[k - 1]);
            assert(chunk[k - 1] == pv@[k as int]);
        }
        if b == 0 {
            proof {
                assert(collected@ + spec_take_until_zero(chunk.skip(k - 1), remaining - (k - 1))
                    =~= collected@);
            }
            terminated = true;
        } else {
            proof {
                assert(chunk.skip(k - 1).drop_first() =~= chunk.skip(k as int));
                assert(collected@ + spec_take_until_zero(chunk.skip(k - 1), remaining - (k - 1))
                    =~= collected@.push(b) + spec_take_until_zero(
                    chunk.skip(k as int),
                    remaining - k,
                ));
            }
            collected.push(b);
        }
        k += 1;
    }
    proof {
        if !terminated {
            assert(collected@ + spec_take_until_zero(chunk.skip(k - 1), remaining - (k - 1))
                =~= collected@);
            assert(!spec_zero_terminated(chunk.skip(k - 1), remaining - (k - 1)));
        }
    }
    (total, collected, terminated)
}

/// Turn collected name bytes into the reported name, falling back to the
/// generic name when the bytes are empty or all white space.
pub fn assemble_device_name(bytes: &Vec<u8>) -> (r: String)
    ensures
        r@ == spec_assembled_name(bytes@),
{
    let mut blank = true;
    let mut name = String::new();
    let mut i: usize = 0;
    while i < bytes.len()
        invariant
            i <= bytes@.len(),
            name@ == spec_name_chars(bytes@).subrange(0, i as int),
            blank == spec_blank_bytes(bytes@.subrange(0, i as int)),
        decreases bytes@.len() - i,
    {
        let b = bytes[i];
        proof {
            let s1 = bytes@.subrange(0, i as int);
            let s2 = bytes@.subrange(0, i + 1);
            assert(s2 =~= s1.push(bytes@[i as int]));
            if blank && spec_is_space_byte(b) {
                assert forall|j: int| 0 <= j < s2.len() implies spec_is_space_byte(
                    #[trigger] s2[j],
                ) by {
                    if j < i {
                        assert(s2[j] == s1[j]);
                    }
                }
                assert(spec_blank_bytes(s2));
            } else if !blank {
                let j = choose|j: int| 0 <= j < s1.len() && !spec_is_space_byte(#[trigger] s1[j]);
                assert(s2[j] == s1[j]);
                assert(!spec_blank_bytes(s2));
            } else {
                assert(s2[i as int] == b);
                assert(!spec_blank_bytes(s2));
            }
            assert(spec_name_chars(bytes@).subrange(0, i + 1) =~= spec_name_chars(
                bytes@,
            ).subrange(0, i as int).push(bytes@[i as int] as char));
        }
        if !is_space_byte(b) {
            blank = false;
        }
        push_char(&mut name, b as char);
        i += 1;
    }
    proof {
        assert(bytes@.subrange(0, bytes@.len() as int) =~= bytes@);
        assert(spec_name_chars(bytes@).subrange(0, bytes@.len() as int) =~= spec_name_chars(
            bytes@,
        ));
    }
    if blank {
        String::from_str("Logitech MX Master 3S")
    } else {
        name
    }
}

/// The battery reading in a battery-status reply: the level is parameter
/// byte 0, the status decodes from parameter byte 1 with the legacy or
/// the unified code table.
pub fn battery_from_reply(reply: &HidppPacket, legacy: bool) -> (r: BatteryInfo)
    ensures
        r.level == reply.spec_parameters()[0],
        r.status == (if legacy {
            spec_battery_status_legacy(reply.spec_parameters()[1])
        } else {
            spec_battery_status_unified(reply.spec_parameters()[1])
        }),
{
    let (level, status_byte) = match reply {
        HidppPacket::Short(p) => (p.parameters[0], p.parameters[1]),
        HidppPacket::Long(p) => (p.parameters[0], p.parameters[1]),
    };
    let status = if legacy {
        battery_status_legacy(status_byte)
    } else {
        battery_status_unified(status_byte)
    };
    BatteryInfo { level, status }
}

/// The DPI reading in a sensor-DPI reply: parameter bytes 1 and 2, big
/// endian.
pub fn dpi_from_reply(reply: &HidppPacket) -> (r: u16)
    ensures
        r == spec_dpi_from_be(reply.spec_parameters()[1], reply.spec_parameters()[2]),
{
    let (hi, lo) = match reply {
        HidppPacket::Short(p) => (p.parameters[1], p.parameters[2]),
        HidppPacket::Long(p) => (p.parameters[1], p.parameters[2]),
    };
    dpi_from_be(hi, lo)
}

/// The SmartShift configuration in a ratchet-control reply: the raw
/// disengage-threshold byte is parameter byte 1.
pub fn smartshift_from_reply(reply: &HidppPacket) -> (r: SmartShiftConfig)
    ensures
        r == spec_smartshift_from_raw(reply.spec_parameters()[1]),
{
    let raw = match reply {
        HidppPacket::Short(p) => p.parameters[1],
        HidppPacket::Long(p) => p.parameters[1],
    };
    smartshift_from_raw(raw)
}

/// The hi-res scroll configuration in a mode reply: the mode byte is
/// parameter byte 0.
pub fn hires_from_reply(reply: &HidppPacket) -> (r: HiResScrollConfig)
    ensures
        r == spec_hires_from_mode(reply.spec_parameters()[0]),
{
    let mode = match reply {
        HidppPacket::Short(p) => p.parameters[0],
        HidppPacket::Long(p) => p.parameters[0],
    };
    hires_from_mode(mode)
}

pub open spec fn spec_button_slot(button: ButtonId) -> int {
    match button {
        ButtonId::LeftClick => 0,
        ButtonId::RightClick => 1,
        ButtonId::MiddleClick => 2,
        ButtonId::Back => 3,
        ButtonId::Forward => 4,
        ButtonId::ThumbGesture => 5,
        ButtonId::WheelModeShift => 6,
    }
}

fn button_slot(button: ButtonId) -> (r: usize)
    ensures
        r == spec_button_slot(button),
        r < 7,
{
    match button {
        ButtonId::LeftClick => 0,
        ButtonId::RightClick => 1,
        ButtonId::MiddleClick => 2,
        ButtonId::Back => 3,
        ButtonId::Forward => 4,
        ButtonId::ThumbGesture => 5,
        ButtonId::WheelModeShift => 6,
    }
}

/// The logical pointing device: one protocol session plus the
/// process-local capability state.
pub struct MxMaster3s {
    hidpp: HidppDevice,
    button_mappings: [Option<Action>; 7],
    scroll_wheel: ScrollWheelConfig,
    thumbwheel: ThumbWheelConfig,
}

impl MxMaster3s {
    pub closed spec fn spec_session(self) -> HidppDevice {
        self.hidpp
    }

    pub closed spec fn spec_buttons(self) -> Seq<Option<Action>> {
        self.button_mappings@
    }

    pub closed spec fn spec_scroll_wheel(self) -> ScrollWheelConfig {
        self.scroll_wheel
    }

    pub closed spec fn spec_thumbwheel(self) -> ThumbWheelConfig {
        self.thumbwheel
    }

    /// The action configured for a button, if any.
    pub open spec fn spec_button_action(self, button: ButtonId) -> Option<Action> {
        self.spec_buttons()[spec_button_slot(button)]
    }

    pub open spec fn spec_wf(self) -> bool {
        self.spec_session().spec_wf()
    }

    /// The process-local capability state (buttons, scroll, thumbwheel) of
    /// `b` is exactly that of `a`.
    pub open spec fn spec_same_software_state(a: Self, b: Self) -> bool {
        a.spec_buttons() == b.spec_buttons() && a.spec_scroll_wheel() == b.spec_scroll_wheel()
            && a.spec_thumbwheel() == b.spec_thumbwheel()
    }

    /// What each successful open gives: a well-formed session at the given
    /// device index, no button configured, default scroll and thumbwheel
    /// tuning.
    pub open spec fn spec_fresh_ok(r: Result<MxMaster3s, DeviceError>, device_index: u8) -> bool {
        r matches Ok(d) ==> d.spec_wf() && d.spec_session().spec_device_index() == device_index && (
        forall|b: ButtonId| d.spec_button_action(b) is None) && d.spec_scroll_wheel() == (
        ScrollWheelConfig {
            vertical_speed_milli: 1000,
            horizontal_speed_milli: 1000,
            smooth_scrolling: false,
        }) && d.spec_thumbwheel() == (ThumbWheelConfig { speed_milli: 1000, smooth_scrolling: true })
    }

    fn from_session(hidpp: HidppDevice) -> (r: Self)
        requires
            hidpp.spec_wf(),
        ensures
            r.spec_wf(),
            r.spec_session() == hidpp,
            forall|b: ButtonId| r.spec_button_action(b) is None,
            r.spec_scroll_wheel() == (ScrollWheelConfig {
                vertical_speed_milli: 1000,
                horizontal_speed_milli: 1000,
                smooth_scrolling: false,
            }),
            r.spec_thumbwheel() == (ThumbWheelConfig { speed_milli: 1000, smooth_scrolling: true }),
    {
        let r = MxMaster3s {
            hidpp,
            button_mappings: [None, None, None, None, None, None, None],
            scroll_wheel: ScrollWheelConfig::default(),
            thumbwheel: ThumbWheelConfig::default(),
        };
        proof {
            assert(forall|b: ButtonId| r.spec_button_action(b) is None);
        }
        r
    }

    /// Open the unit through the receiver at the given device index and
    /// validate it with a ping.
    pub fn open_bolt_receiver(device_index: u8) -> (r: Result<Self, DeviceError>)
        ensures
            Self::spec_fresh_ok(r, device_index),
    {
        let mut hidpp = match HidppDevice::open_vid_pid(
            VID_LOGITECH,
            PID_BOLT_RECEIVER,
            device_index,
        ) {
            Ok(h) => h,
            Err(e) => { return Err(e) },
        };
        match hidpp.ping() {
            Ok(_) => {},
            Err(e) => { return Err(e) },
        }
        Ok(Self::from_session(hidpp))
    }

    /// Open the directly wired unit and validate it with a ping.
    pub fn open_usb() -> (r: Result<Self, DeviceError>)
        ensures
            Self::spec_fresh_ok(r, 0xFF),
    {
        let mut hidpp = match HidppDevice::open_vid_pid(VID_LOGITECH, PID_MX_MASTER_3S_USB, 0xFF) {
            Ok(h) => h,
            Err(e) => { return Err(e) },
        };
        match hidpp.ping() {
            Ok(_) => {},
            Err(e) => { return Err(e) },
        }
        Ok(Self::from_session(hidpp))
    }

    /// Open the unit over its wireless direct link and validate it with a
    /// ping.
    pub fn open_bluetooth() -> (r: Result<Self, DeviceError>)
        ensures
            Self::spec_fresh_ok(r, 0xFF),
    {
        let mut hidpp = match HidppDevice::open_vid_pid(VID_LOGITECH, PID_MX_MASTER_3S_BT, 0xFF) {
            Ok(h) => h,
            Err(e) => { return Err(e) },
        };
        match hidpp.ping() {
            Ok(_) => {},
            Err(e) => { return Err(e) },
        }
        Ok(Self::from_session(hidpp))
    }

    fn get_battery_with(&mut self, feature_id: u16, legacy: bool) -> (r: Result<
        BatteryInfo,
        DeviceError,
    >)
        requires
            old(self).spec_wf(),
        ensures
            final(self).spec_wf(),
            Self::spec_same_software_state(*old(self), *final(self)),
            r matches Ok(info) ==> spec_parseable(final(self).spec_session().spec_last_reply())
                && (forall|p: HidppPacket|
                spec_decoded(final(self).spec_session().spec_last_reply(), p) ==> info.level
                    == p.spec_parameters()[0] && info.status == (if legacy {
                    spec_battery_status_legacy(p.spec_parameters()[1])
                } else {
                    spec_battery_status_unified(p.spec_parameters()[1])
                })),
    {
        let feature_index = match self.hidpp.get_feature_index(feature_id) {
            Ok(i) => i,
            Err(e) => { return Err(e) },
        };
        let empty: [u8; 0] = [];
        let response = match self.hidpp.send_command(
            feature_index,
            BatteryFunction::GetStatus.code(),
            empty.as_slice(),
        ) {
            Ok(response) => response,
            Err(e) => { return Err(e) },
        };
        let info = battery_from_reply(&response, legacy);
        proof {
            assert forall|p: HidppPacket|
                spec_decoded(self.spec_session().spec_last_reply(), p) implies info.level
                == p.spec_parameters()[0] && info.status == (if legacy {
                spec_battery_status_legacy(p.spec_parameters()[1])
            } else {
                spec_battery_status_unified(p.spec_parameters()[1])
            }) by {
                lemma_decode_deterministic(self.spec_session().spec_last_reply(), p, response);
            }
        }
        Ok(info)
    }

    /// Read the battery level and charging status: the unified battery
    /// feature first, and on any failure the legacy battery-status feature.
    /// The result decodes the reply's level byte and status byte with the
    /// code table of whichever feature answered.
    pub fn get_battery_info(&mut self) -> (r: Result<BatteryInfo, DeviceError>)
        requires
            old(self).spec_wf(),
        ensures
            final(self).spec_wf(),
            Self::spec_same_software_state(*old(self), *final(self)),
            r matches Ok(info) ==> spec_parseable(final(self).spec_session().spec_last_reply())
                && (forall|p: HidppPacket|
                spec_decoded(final(self).spec_session().spec_last_reply(), p) ==> info.level
                    == p.spec_parameters()[0] && (info.status == spec_battery_status_unified(
                    p.spec_parameters()[1],
                ) || info.status == spec_battery_status_legacy(p.spec_parameters()[1]))),
    {
        match self.get_battery_with(FEATURE_UNIFIED_BATTERY, false) {
            Ok(info) => Ok(info),
            Err(_) => self.get_battery_with(FEATURE_BATTERY_STATUS, true),
        }
    }

    /// Write the sensor DPI: the frame handed to the transport selects
    /// sensor 0 and carries the value as two big-endian bytes, on the
    /// set-sensor-DPI function of the resolved DPI feature.
    pub fn set_dpi(&mut self, dpi: u16) -> (r: Result<(), DeviceError>)
        requires
            old(self).spec_wf(),
        ensures
            final(self).spec_wf(),
            Self::spec_same_software_state(*old(self), *final(self)),
            r is Ok ==> final(self).spec_session().spec_cache().spec_lookup(FEATURE_ADJUSTABLE_DPI)
                is Some && final(self).spec_session().spec_last_request() == spec_request_bytes(
                old(self).spec_session().spec_device_index(),
                final(self).spec_session().spec_cache().spec_lookup(
                    FEATURE_ADJUSTABLE_DPI,
                )->Some_0,
                DpiFunction::SetSensorDpi.spec_code(),
                old(self).spec_session().spec_software_id(),
                seq![0u8, (dpi >> 8) as u8, (dpi & 0xFF) as u8],
            ),
    {
        let feature_index = match self.hidpp.get_feature_index(FEATURE_ADJUSTABLE_DPI) {
            Ok(i) => i,
            Err(e) => { return Err(e) },
        };
        let params: [u8; 3] = [0x00, (dpi >> 8) as u8, (dpi & 0xFF) as u8];
        proof {
            assert(params@ =~= seq![0u8, (dpi >> 8) as u8, (dpi & 0xFF) as u8]);
        }
        match self.hidpp.send_command(
            feature_index,
            DpiFunction::SetSensorDpi.code(),
            params.as_slice(),
        ) {
            Ok(_) => Ok(()),
            Err(e) => Err(e),
        }
    }

    /// Read the sensor DPI of sensor 0: the result decodes the reply's
    /// parameter bytes 1 and 2 as a big-endian value.
    pub fn get_dpi(&mut self) -> (r: Result<u16, DeviceError>)
        requires
            old(self).spec_wf(),
        ensures
            final(self).spec_wf(),
            Self::spec_same_software_state(*old(self), *final(self)),
            r matches Ok(dpi) ==> spec_parseable(final(self).spec_session().spec_last_reply())
                && (forall|p: HidppPacket|
                spec_decoded(final(self).spec_session().spec_last_reply(), p) ==> dpi
                    == spec_dpi_from_be(p.spec_parameters()[1], p.spec_parameters()[2])),
    {
        let feature_index = match self.hidpp.get_feature_index(FEATURE_ADJUSTABLE_DPI) {
            Ok(i) => i,
            Err(e) => { return Err(e) },
        };
        let params: [u8; 1] = [0x00];
        let response = match self.hidpp.send_command(
            feature_index,
            DpiFunction::GetSensorDpi.code(),
            params.as_slice(),
        ) {
            Ok(response) => response,
            Err(e) => { return Err(e) },
        };
        let dpi = dpi_from_reply(&response);
        proof {
            assert forall|p: HidppPacket|
                spec_decoded(self.spec_session().spec_last_reply(), p) implies dpi
                == spec_dpi_from_be(p.spec_parameters()[1], p.spec_parameters()[2]) by {
                lemma_decode_deterministic(self.spec_session().spec_last_reply(), p, response);
            }
        }
        Ok(dpi)
    }

    /// Write the SmartShift configuration: the frame handed to the
    /// transport carries the manual-ratio wheel mode byte `0x02`, the
    /// disengage threshold of `spec_smartshift_wire_byte`, and a zero
    /// default byte, on the set-ratchet-control function of the resolved
    /// SmartShift feature.
    pub fn set_smartshift(&mut self, config: SmartShiftConfig) -> (r: Result<(), DeviceError>)
        requires
            old(self).spec_wf(),
        ensures
            final(self).spec_wf(),
            Self::spec_same_software_state(*old(self), *final(self)),
            r is Ok ==> final(self).spec_session().spec_cache().spec_lookup(FEATURE_SMART_SHIFT)
                is Some && final(self).spec_session().spec_last_request() == spec_request_bytes(
                old(self).spec_session().spec_device_index(),
                final(self).spec_session().spec_cache().spec_lookup(FEATURE_SMART_SHIFT)->Some_0,
                SmartShiftFunction::SetRatchetControlMode.spec_code(),
                old(self).spec_session().spec_software_id(),
                seq![0x02u8, spec_smartshift_wire_byte(config), 0x00u8],
            ),
    {
        let feature_index = match self.hidpp.get_feature_index(FEATURE_SMART_SHIFT) {
            Ok(i) => i,
            Err(e) => { return Err(e) },
        };
        let wheel_mode: u8 = 0x02;
        let auto_disengage = smartshift_wire_byte(config);
        let auto_disengage_default: u8 = 0x00;
        let params: [u8; 3] = [wheel_mode, auto_disengage, auto_disengage_default];
        proof {
            assert(params@ =~= seq![0x02u8, spec_smartshift_wire_byte(config), 0x00u8]);
        }
        match self.hidpp.send_command(
            feature_index,
            SmartShiftFunction::SetRatchetControlMode.code(),
            params.as_slice(),
        ) {
            Ok(_) => Ok(()),
            Err(e) => Err(e),
        }
    }

    /// Read the SmartShift configuration back from the raw threshold byte,
    /// as `spec_smartshift_from_raw` says: enabled exactly when the byte is
    /// strictly between 0 and `0xFF`, and the default threshold 20 whenever
    /// it is not.
    pub fn get_smartshift(&mut self) -> (r: Result<SmartShiftConfig, DeviceError>)
        requires
            old(self).spec_wf(),
        ensures
            final(self).spec_wf(),
            Self::spec_same_software_state(*old(self), *final(self)),
            r matches Ok(c) ==> (c.enabled ==> 0 < c.threshold < 0xFF) && (!c.enabled
                ==> c.threshold == 20),
            r matches Ok(c) ==> spec_parseable(final(self).spec_session().spec_last_reply()) && (
            forall|p: HidppPacket|
                spec_decoded(final(self).spec_session().spec_last_reply(), p) ==> c
                    == spec_smartshift_from_raw(p.spec_parameters()[1])),
    {
        let feature_index = match self.hidpp.get_feature_index(FEATURE_SMART_SHIFT) {
            Ok(i) => i,
            Err(e) => { return Err(e) },
        };
        let empty: [u8; 0] = [];
        let response = match self.hidpp.send_command(
            feature_index,
            SmartShiftFunction::GetRatchetControlMode.code(),
            empty.as_slice(),
        ) {
            Ok(response) => response,
            Err(e) => { return Err(e) },
        };
        let config = smartshift_from_reply(&response);
        proof {
            assert forall|p: HidppPacket|
                spec_decoded(self.spec_session().spec_last_reply(), p) implies config
                == spec_smartshift_from_raw(p.spec_parameters()[1]) by {
                lemma_decode_deterministic(self.spec_session().spec_last_reply(), p, response);
            }
        }
        Ok(config)
    }

    /// Write the hi-res scroll configuration: the frame handed to the
    /// transport carries the mode byte of `spec_hires_mode_byte` and two
    /// zero bytes, on the set-mode function of the resolved hi-res-wheel
    /// feature.  The inverted flag is not transmitted.
    pub fn set_hires_scroll(&mut self, config: HiResScrollConfig) -> (r: Result<(), DeviceError>)
        requires
            old(self).spec_wf(),
        ensures
            final(self).spec_wf(),
            Self::spec_same_software_state(*old(self), *final(self)),
            r is Ok ==> final(self).spec_session().spec_cache().spec_lookup(FEATURE_HIRES_WHEEL)
                is Some && final(self).spec_session().spec_last_request() == spec_request_bytes(
                old(self).spec_session().spec_device_index(),
                final(self).spec_session().spec_cache().spec_lookup(FEATURE_HIRES_WHEEL)->Some_0,
                HiresWheelFunction::SetMode.spec_code(),
                old(self).spec_session().spec_software_id(),
                seq![spec_hires_mode_byte(config), 0x00u8, 0x00u8],
            ),
    {
        let feature_index = match self.hidpp.get_feature_index(FEATURE_HIRES_WHEEL) {
            Ok(i) => i,
            Err(e) => { return Err(e) },
        };
        let params: [u8; 3] = [hires_mode_byte(config), 0x00, 0x00];
        proof {
            assert(params@ =~= seq![spec_hires_mode_byte(config), 0x00u8, 0x00u8]);
        }
        match self.hidpp.send_command(
            feature_index,
            HiresWheelFunction::SetMode.code(),
            params.as_slice(),
        ) {
            Ok(_) => Ok(()),
            Err(e) => Err(e),
        }
    }

    /// Read the hi-res scroll configuration.  The device cannot report the
    /// inverted flag, so it is always `false` in the result.
    pub fn get_hires_scroll(&mut self) -> (r: Result<HiResScrollConfig, DeviceError>)
        requires
            old(self).spec_wf(),
        ensures
            final(self).spec_wf(),
            Self::spec_same_software_state(*old(self), *final(self)),
            r matches Ok(c) ==> !c.inverted,
            r matches Ok(c) ==> spec_parseable(final(self).spec_session().spec_last_reply()) && (
            forall|p: HidppPacket|
                spec_decoded(final(self).spec_session().spec_last_reply(), p) ==> c
                    == spec_hires_from_mode(p.spec_parameters()[0])),
    {
        let feature_index = match self.hidpp.get_feature_index(FEATURE_HIRES_WHEEL) {
            Ok(i) => i,
            Err(e) => { return Err(e) },
        };
        let empty: [u8; 0] = [];
        let response = match self.hidpp.send_command(
            feature_index,
            HiresWheelFunction::GetMode.code(),
            empty.as_slice(),
        ) {
            Ok(response) => response,
            Err(e) => { return Err(e) },
        };
        let config = hires_from_reply(&response);
        proof {
            assert forall|p: HidppPacket|
                spec_decoded(self.spec_session().spec_last_reply(), p) implies config
                == spec_hires_from_mode(p.spec_parameters()[0]) by {
                lemma_decode_deterministic(self.spec_session().spec_last_reply(), p, response);
            }
        }
        Ok(config)
    }

    /// Configure a button.  Pure software state: always succeeds, stores
    /// the action verbatim, and leaves every other button as it was.
    pub fn set_button_action(&mut self, button: ButtonId, action: Action) -> (r: Result<
        (),
        DeviceError,
    >)
        requires
            old(self).spec_wf(),
        ensures
            final(self).spec_wf(),
            r is Ok,
            final(self).spec_session() == old(self).spec_session(),
            final(self).spec_scroll_wheel() == old(self).spec_scroll_wheel(),
            final(self).spec_thumbwheel() == old(self).spec_thumbwheel(),
            final(self).spec_button_action(button) == Some(action),
            forall|b: ButtonId|
                b != button ==> final(self).spec_button_action(b) == old(self).spec_button_action(
                    b,
                ),
    {
        let slot = button_slot(button);
        self.button_mappings[slot] = Some(action);
        Ok(())
    }

    /// The action configured for a button; `NotFound` exactly when the
    /// button has none.
    pub fn get_button_action(&self, button: ButtonId) -> (r: Result<&Action, DeviceError>)
        ensures
            r matches Ok(action) ==> self.spec_button_action(button) == Some(*action),
            r matches Err(e) ==> e == DeviceError::NotFound && self.spec_button_action(button)
                is None,
    {
        let slot = button_slot(button);
        match &self.button_mappings[slot] {
            Some(action) => Ok(action),
            None => Err(DeviceError::NotFound),
        }
    }

    /// Store the scroll-wheel tuning verbatim.  Pure software state.
    pub fn set_scroll_wheel(&mut self, config: ScrollWheelConfig) -> (r: Result<(), DeviceError>)
        requires
            old(self).spec_wf(),
        ensures
            final(self).spec_wf(),
            r is Ok,
            final(self).spec_session() == old(self).spec_session(),
            final(self).spec_buttons() == old(self).spec_buttons(),
            final(self).spec_thumbwheel() == old(self).spec_thumbwheel(),
            final(self).spec_scroll_wheel() == config,
    {
        self.scroll_wheel = config;
        Ok(())
    }

    /// The stored scroll-wheel tuning, verbatim.
    pub fn get_scroll_wheel(&self) -> (r: Result<ScrollWheelConfig, DeviceError>)
        ensures
            r == Ok::<ScrollWheelConfig, DeviceError>(self.spec_scroll_wheel()),
    {
        Ok(self.scroll_wheel)
    }

    /// Store the thumbwheel tuning verbatim.  Pure software state.
    pub fn set_thumb_wheel(&mut self, config: ThumbWheelConfig) -> (r: Result<(), DeviceError>)
        requires
            old(self).spec_wf(),
        ensures
            final(self).spec_wf(),
            r is Ok,
            final(self).spec_session() == old(self).spec_session(),
            final(self).spec_buttons() == old(self).spec_buttons(),
            final(self).spec_scroll_wheel() == old(self).spec_scroll_wheel(),
            final(self).spec_thumbwheel() == config,
    {
        self.thumbwheel = config;
        Ok(())
    }

    /// The stored thumbwheel tuning, verbatim.
    pub fn get_thumb_wheel(&self) -> (r: Result<ThumbWheelConfig, DeviceError>)
        ensures
            r == Ok::<ThumbWheelConfig, DeviceError>(self.spec_thumbwheel()),
    {
        Ok(self.thumbwheel)
    }

    /// Read the device-reported name: paginated reads at successive
    /// offsets until the reported total length is consumed or an embedded
    /// zero terminator ends the name; then the generic fallback name if
    /// what was collected is empty or all white space.  The result is
    /// never blank.  The whole read is bounded: one feature lookup and at
    /// most 135 pagination commands (the offset strictly grows by the
    /// chunk size until it passes the reported total of at most 255), each
    /// of up to three exchange attempts — 408 exchanges in all.
    pub fn get_device_name(&mut self) -> (r: Result<String, DeviceError>)
        requires
            old(self).spec_wf(),
        ensures
            final(self).spec_wf(),
            Self::spec_same_software_state(*old(self), *final(self)),
            final(self).spec_session().spec_exchanges() <= old(
                self,
            ).spec_session().spec_exchanges() + 408,
            r matches Ok(name) ==> !spec_blank_chars(name@),
    {
        let feature_index = match self.hidpp.get_feature_index(FEATURE_DEVICE_NAME) {
            Ok(i) => i,
            Err(e) => { return Err(e) },
        };
        let ghost lookup_end = self.hidpp.spec_exchanges();
        let ghost mut rounds: int = 0;
        let mut collected: Vec<u8> = Vec::new();
        let mut offset: usize = 0;
        let mut total: usize = 1;
        while offset < total
            invariant_except_break
                self.hidpp.spec_exchanges() <= lookup_end + 3 * rounds,
            invariant
                self.spec_wf(),
                Self::spec_same_software_state(*old(self), *self),
                total <= 255,
                offset <= 269,
                lookup_end <= old(self).spec_session().spec_exchanges() + 3,
                0 <= rounds,
                offset >= 2 * rounds,
            ensures
                self.hidpp.spec_exchanges() <= lookup_end + 3 * rounds + 3,
            decreases 270 - offset,
        {
            let params: [u8; 1] = [offset as u8];
            let response = match self.hidpp.send_command(feature_index, 0x00, params.as_slice()) {
                Ok(response) => response,
                Err(e) => { return Err(e) },
            };
            let (reported, mut chunk, terminated) = name_chunk_from_reply(&response, offset);
            total = reported;
            collected.append(&mut chunk);
            if terminated {
                break;
            }
            let step: usize = match &response {
                HidppPacket::Short(_) => 2,
                HidppPacket::Long(_) => 15,
            };
            offset = offset + step;
            proof {
                rounds = rounds + 1;
            }
        }
        let name = assemble_device_name(&collected);
        proof {
            lemma_assembled_name_not_blank(collected@);
        }
        Ok(name)
    }

    /// Validate that the unit is present and responsive.
    pub fn ping(&mut self) -> (r: Result<(), DeviceError>)
        requires
            old(self).spec_wf(),
        ensures
            final(self).spec_wf(),
            Self::spec_same_software_state(*old(self), *final(self)),
    {
        self.hidpp.ping()
    }
}

} // verus!
