//! Packet codec for the two fixed-size report formats.
//!
//! A report is either Short (7 bytes: id, device index, feature index,
//! function/session byte, 3 parameter bytes) or Long (20 bytes: same header,
//! 16 parameter bytes), selected by the leading report identifier byte.
//! Encoding and decoding are pure and round-trip exact for every field
//! combination whose function id and software id fit in four bits.

use vstd::prelude::*;

use crate::constants::{LONG_PACKET_SIZE, REPORT_ID_LONG, REPORT_ID_SHORT, SHORT_PACKET_SIZE};
use crate::error::DeviceError;

verus! {

#[derive(Debug, Clone, PartialEq, Eq)]
pub struct ShortPacket {
    pub device_index: u8,
    pub feature_index: u8,
    pub function_id: u8,
    pub software_id: u8,
    pub parameters: [u8; 3],
}

#[derive(Debug, Clone, PartialEq, Eq)]
pub struct LongPacket {
    pub device_index: u8,
    pub feature_index: u8,
    pub function_id: u8,
    pub software_id: u8,
    pub parameters: [u8; 16],
}

#[derive(Debug, Clone, PartialEq, Eq)]
pub enum HidppPacket {
    Short(ShortPacket),
    Long(LongPacket),
}

/// The function/session byte: function id in the high nibble, software
/// (session) id in the low nibble.
pub open spec fn spec_fs_byte(function_id: u8, software_id: u8) -> u8 {
    (function_id << 4) | (software_id & 0x0F)
}

impl HidppPacket {
    pub open spec fn spec_device_index(self) -> u8 {
        match self {
            HidppPacket::Short(p) => p.device_index,
            HidppPacket::Long(p) => p.device_index,
        }
    }

    pub open spec fn spec_feature_index(self) -> u8 {
        match self {
            HidppPacket::Short(p) => p.feature_index,
            HidppPacket::Long(p) => p.feature_index,
        }
    }

    pub open spec fn spec_function_id(self) -> u8 {
        match self {
            HidppPacket::Short(p) => p.function_id,
            HidppPacket::Long(p) => p.function_id,
        }
    }

    pub open spec fn spec_software_id(self) -> u8 {
        match self {
            HidppPacket::Short(p) => p.software_id,
            HidppPacket::Long(p) => p.software_id,
        }
    }

    /// The parameter bytes, as a sequence of 3 (Short) or 16 (Long) bytes.
    pub open spec fn spec_parameters(self) -> Seq<u8> {
        match self {
            HidppPacket::Short(p) => p.parameters@,
            HidppPacket::Long(p) => p.parameters@,
        }
    }

    /// A frame can be encoded and decoded without loss exactly when its
    /// function id and software id fit in four bits.
    pub open spec fn spec_wf(self) -> bool {
        self.spec_function_id() <= 0x0F && self.spec_software_id() <= 0x0F
    }

    /// A frame is an error response exactly when its feature-index field
    /// is one of the two reserved error markers.
    pub open spec fn spec_is_error(self) -> bool {
        self.spec_feature_index() == 0x8F || self.spec_feature_index() == 0xFF
    }
}

/// The exact byte sequence a frame serializes to.
pub open spec fn spec_to_bytes(p: HidppPacket) -> Seq<u8> {
    match p {
        HidppPacket::Short(s) => seq![
            REPORT_ID_SHORT,
            s.device_index,
            s.feature_index,
            spec_fs_byte(s.function_id, s.software_id),
        ] + s.parameters@,
        HidppPacket::Long(l) => seq![
            REPORT_ID_LONG,
            l.device_index,
            l.feature_index,
            spec_fs_byte(l.function_id, l.software_id),
        ] + l.parameters@,
    }
}

/// A buffer decodes successfully exactly when it is nonempty, starts with a
/// recognized report identifier, and is at least that format's fixed size.
pub open spec fn spec_parseable(bytes: Seq<u8>) -> bool {
    bytes.len() > 0 && ((bytes[0] == REPORT_ID_SHORT && bytes.len() >= SHORT_PACKET_SIZE) || (
    bytes[0] == REPORT_ID_LONG && bytes.len() >= LONG_PACKET_SIZE))
}

/// The frame `p` is what the buffer `bytes` decodes to.
pub open spec fn spec_decoded(bytes: Seq<u8>, p: HidppPacket) -> bool {
    match p {
        HidppPacket::Short(s) => bytes.len() >= SHORT_PACKET_SIZE && bytes[0] == REPORT_ID_SHORT
            && s.device_index == bytes[1] && s.feature_index == bytes[2] && s.function_id == bytes[3]
            >> 4 && s.software_id == (bytes[3] & 0x0F) && s.parameters@ == bytes.subrange(
            4,
            SHORT_PACKET_SIZE as int,
        ),
        HidppPacket::Long(l) => bytes.len() >= LONG_PACKET_SIZE && bytes[0] == REPORT_ID_LONG
            && l.device_index == bytes[1] && l.feature_index == bytes[2] && l.function_id == bytes[3]
            >> 4 && l.software_id == (bytes[3] & 0x0F) && l.parameters@ == bytes.subrange(
            4,
            LONG_PACKET_SIZE as int,
        ),
    }
}

impl HidppPacket {
    pub fn new_short(
        device_index: u8,
        feature_index: u8,
        function_id: u8,
        software_id: u8,
        parameters: [u8; 3],
    ) -> (r: Self)
        ensures
            r == HidppPacket::Short(
                ShortPacket { device_index, feature_index, function_id, software_id, parameters },
            ),
    {
        HidppPacket::Short(
            ShortPacket { device_index, feature_index, function_id, software_id, parameters },
        )
    }

    pub fn new_long(
        device_index: u8,
        feature_index: u8,
        function_id: u8,
        software_id: u8,
        parameters: [u8; 16],
    ) -> (r: Self)
        ensures
            r == HidppPacket::Long(
                LongPacket { device_index, feature_index, function_id, software_id, parameters },
            ),
    {
        HidppPacket::Long(
            LongPacket { device_index, feature_index, function_id, software_id, parameters },
        )
    }

    /// Serialize the frame into its fixed-size wire form.
    pub fn to_bytes(&self) -> (r: Vec<u8>)
        ensures
            r@ == spec_to_bytes(*self),
            r@.len() == (if *self is Short {
                SHORT_PACKET_SIZE
            } else {
                LONG_PACKET_SIZE
            }),
    {
        match self {
            HidppPacket::Short(packet) => {
                let mut bytes: Vec<u8> = Vec::new();
                bytes.push(REPORT_ID_SHORT);
                bytes.push(packet.device_index);
                bytes.push(packet.feature_index);
                bytes.push((packet.function_id << 4) | (packet.software_id & 0x0F));
                let mut i: usize = 0;
                while i < 3
                    invariant
                        i <= 3,
                        bytes@ == seq![
                            REPORT_ID_SHORT,
                            packet.device_index,
                            packet.feature_index,
                            spec_fs_byte(packet.function_id, packet.software_id),
                        ] + packet.parameters@.subrange(0, i as int),
                    decreases 3 - i,
                {
                    bytes.push(packet.parameters[i]);
                    proof {
                        assert(packet.parameters@.subrange(0, i + 1) =~= packet.parameters@.subrange(
                            0,
                            i as int,
                        ).push(packet.parameters@[i as int]));
                    }
                    i += 1;
                }
                proof {
                    assert(packet.parameters@.subrange(0, 3) =~= packet.parameters@);
                }
                bytes
            },
            HidppPacket::Long(packet) => {
                let mut bytes: Vec<u8> = Vec::new();
                bytes.push(REPORT_ID_LONG);
                bytes.push(packet.device_index);
                bytes.push(packet.feature_index);
                bytes.push((packet.function_id << 4) | (packet.software_id & 0x0F));
                let mut i: usize = 0;
                while i < 16
                    invariant
                        i <= 16,
                        bytes@ == seq![
                            REPORT_ID_LONG,
                            packet.device_index,
                            packet.feature_index,
                            spec_fs_byte(packet.function_id, packet.software_id),
                        ] + packet.parameters@.subrange(0, i as int),
                    decreases 16 - i,
                {
                    bytes.push(packet.parameters[i]);
                    proof {
                        assert(packet.parameters@.subrange(0, i + 1) =~= packet.parameters@.subrange(
                            0,
                            i as int,
                        ).push(packet.parameters@[i as int]));
                    }
                    i += 1;
                }
                proof {
                    assert(packet.parameters@.subrange(0, 16) =~= packet.parameters@);
                }
                bytes
            },
        }
    }

    /// Decode one received report.  Fails with `InvalidResponse` on an empty
    /// buffer, an unrecognized leading byte, or a buffer shorter than the
    /// format's fixed size; succeeds on everything else.
    pub fn from_bytes(bytes: &[u8]) -> (r: Result<Self, DeviceError>)
        ensures
            r is Ok <==> spec_parseable(bytes@),
            r matches Ok(p) ==> spec_decoded(bytes@, p),
            r matches Ok(p) ==> p.spec_wf(),
            r matches Err(e) ==> e == DeviceError::InvalidResponse,
    {
        if bytes.len() == 0 {
            return Err(DeviceError::InvalidResponse);
        }
        let b0 = bytes[0];
        if b0 == REPORT_ID_SHORT {
            if bytes.len() < SHORT_PACKET_SIZE {
                return Err(DeviceError::InvalidResponse);
            }
            let parameters: [u8; 3] = [bytes[4], bytes[5], bytes[6]];
            let fsb = bytes[3];
            proof {
                assert(parameters@ =~= bytes@.subrange(4, SHORT_PACKET_SIZE as int));
                assert((fsb >> 4) <= 0x0F && (fsb & 0x0F) <= 0x0F) by (bit_vector);
            }
            Ok(
                HidppPacket::Short(
                    ShortPacket {
                        device_index: bytes[1],
                        feature_index: bytes[2],
                        function_id: fsb >> 4,
                        software_id: fsb & 0x0F,
                        parameters,
                    },
                ),
            )
        } else if b0 == REPORT_ID_LONG {
            if bytes.len() < LONG_PACKET_SIZE {
                return Err(DeviceError::InvalidResponse);
            }
            let parameters: [u8; 16] = [
                bytes[4],
                bytes[5],
                bytes[6],
                bytes[7],
                bytes[8],
                bytes[9],
                bytes[10],
                bytes[11],
                bytes[12],
                bytes[13],
                bytes[14],
                bytes[15],
                bytes[16],
                bytes[17],
                bytes[18],
                bytes[19],
            ];
            let fsb = bytes[3];
            proof {
                assert(parameters@ =~= bytes@.subrange(4, LONG_PACKET_SIZE as int));
                assert((fsb >> 4) <= 0x0F && (fsb & 0x0F) <= 0x0F) by (bit_vector);
            }
            Ok(
                HidppPacket::Long(
                    LongPacket {
                        device_index: bytes[1],
                        feature_index: bytes[2],
                        function_id: fsb >> 4,
                        software_id: fsb & 0x0F,
                        parameters,
                    },
                ),
            )
        } else {
            Err(DeviceError::InvalidResponse)
        }
    }

    /// The parameter bytes of the frame, as a vector of 3 (Short) or 16
    /// (Long) bytes.
    pub fn parameters_vec(&self) -> (r: Vec<u8>)
        ensures
            r@ == self.spec_parameters(),
            r@.len() == 3 || r@.len() == 16,
    {
        match self {
            HidppPacket::Short(packet) => {
                let mut out: Vec<u8> = Vec::new();
                let mut i: usize = 0;
                while i < 3
                    invariant
                        i <= 3,
                        out@ == packet.parameters@.subrange(0, i as int),
                    decreases 3 - i,
                {
                    out.push(packet.parameters[i]);
                    proof {
                        assert(packet.parameters@.subrange(0, i + 1) =~= packet.parameters@.subrange(
                            0,
                            i as int,
                        ).push(packet.parameters@[i as int]));
                    }
                    i += 1;
                }
                proof {
                    assert(packet.parameters@.subrange(0, 3) =~= packet.parameters@);
                }
                out
            },
            HidppPacket::Long(packet) => {
                let mut out: Vec<u8> = Vec::new();
                let mut i: usize = 0;
                while i < 16
                    invariant
                        i <= 16,
                        out@ == packet.parameters@.subrange(0, i as int),
                    decreases 16 - i,
                {
                    out.push(packet.parameters[i]);
                    proof {
                        assert(packet.parameters@.subrange(0, i + 1) =~= packet.parameters@.subrange(
                            0,
                            i as int,
                        ).push(packet.parameters@[i as int]));
                    }
                    i += 1;
                }
                proof {
                    assert(packet.parameters@.subrange(0, 16) =~= packet.parameters@);
                }
                out
            },
        }
    }

    /// Whether this frame is an error response: its feature-index field is
    /// `0x8F` or `0xFF`.
    pub fn is_error(&self) -> (r: bool)
        ensures
            r == self.spec_is_error(),
    {
        match self {
            HidppPacket::Short(p) => p.feature_index == 0x8F || p.feature_index == 0xFF,
            HidppPacket::Long(p) => p.feature_index == 0x8F || p.feature_index == 0xFF,
        }
    }

    /// The device-reported error code of an error response: parameter byte 0.
    /// `None` exactly when the frame is not an error response.
    pub fn get_error_code(&self) -> (r: Option<u8>)
        ensures
            self.spec_is_error() ==> r == Some(self.spec_parameters()[0]),
            !self.spec_is_error() ==> r is None,
    {
        if !self.is_error() {
            return None;
        }
        match self {
            HidppPacket::Short(p) => Some(p.parameters[0]),
            HidppPacket::Long(p) => Some(p.parameters[0]),
        }
    }
}

/// Decoding is deterministic: a buffer decodes to at most one frame.
pub proof fn lemma_decode_deterministic(bytes: Seq<u8>, p1: HidppPacket, p2: HidppPacket)
    requires
        spec_decoded(bytes, p1),
        spec_decoded(bytes, p2),
    ensures
        p1 == p2,
{
    match (p1, p2) {
        (HidppPacket::Short(a), HidppPacket::Short(b)) => {
            assert(a.parameters =~= b.parameters);
        },
        (HidppPacket::Long(a), HidppPacket::Long(b)) => {
            assert(a.parameters =~= b.parameters);
        },
        _ => {
            assert(REPORT_ID_SHORT != REPORT_ID_LONG);
        },
    }
}

/// Law: the codec is round-trip exact.  For every frame whose function id
/// and software id fit in four bits, the serialized bytes decode, and the
/// only frame they decode to is the original, every field included.
pub proof fn lemma_roundtrip_exact(p: HidppPacket)
    requires
        p.spec_wf(),
    ensures
        spec_parseable(spec_to_bytes(p)),
        spec_decoded(spec_to_bytes(p), p),
        forall|q: HidppPacket| spec_decoded(spec_to_bytes(p), q) ==> q == p,
{
    let bytes = spec_to_bytes(p);
    assert(forall|f: u8, s: u8|
        f <= 0x0F && s <= 0x0F ==> ((((#[trigger] spec_fs_byte(f, s)) >> 4) == f) && ((spec_fs_byte(
            f,
            s,
        ) & 0x0F) == s))) by (bit_vector);
    match p {
        HidppPacket::Short(s) => {
            assert(bytes.subrange(4, SHORT_PACKET_SIZE as int) =~= s.parameters@);
            assert(spec_decoded(bytes, p));
            assert forall|q: HidppPacket| spec_decoded(bytes, q) implies q == p by {
                match q {
                    HidppPacket::Short(qs) => {
                        assert(qs.parameters =~= s.parameters);
                    },
                    HidppPacket::Long(_) => {
                        assert(REPORT_ID_SHORT != REPORT_ID_LONG);
                    },
                }
            }
        },
        HidppPacket::Long(l) => {
            assert(bytes.subrange(4, LONG_PACKET_SIZE as int) =~= l.parameters@);
            assert(spec_decoded(bytes, p));
            assert forall|q: HidppPacket| spec_decoded(bytes, q) implies q == p by {
                match q {
                    HidppPacket::Long(ql) => {
                        assert(ql.parameters =~= l.parameters);
                    },
                    HidppPacket::Short(_) => {
                        assert(REPORT_ID_SHORT != REPORT_ID_LONG);
                    },
                }
            }
        },
    }
}

} // verus!
