//! Protocol session over one open HID transport handle.
//!
//! `HidppDevice` owns the handle, resolves logical 16-bit feature ids to
//! per-session indices through a lazily filled `FeatureCache`, performs one
//! write followed by one bounded-timeout read per exchange, retries busy
//! replies and transport failures a bounded number of times, and classifies
//! device-reported error codes.
//!
//! The calls into the `hidapi` crate stand behind trusted wrappers; every
//! decision around them is verified.

use vstd::prelude::*;

use crate::constants::{ERROR_BUSY, REPORT_ID_LONG, REPORT_ID_SHORT, ROOT_INDEX};
use crate::error::{spec_wire_error, map_wire_error, DeviceError};
use crate::features::RootFunction;
use crate::packet::{
    lemma_decode_deterministic, spec_decoded, spec_fs_byte, spec_parseable, spec_to_bytes,
    HidppPacket,
};

verus! {

/// Transport read timeout for one exchange, in milliseconds.
pub const DEFAULT_TIMEOUT_MS: i32 = 1000;

/// Number of attempts for one command: the first try and up to two retries.
pub const RETRY_COUNT: usize = 3;

#[verifier::external_type_specification]
#[verifier::external_body]
pub struct ExHidApi(hidapi::HidApi);

#[verifier::external_type_specification]
#[verifier::external_body]
pub struct ExHidDevice(hidapi::HidDevice);

#[verifier::external_type_specification]
#[verifier::external_body]
pub struct ExDeviceInfo(hidapi::DeviceInfo);

/// One enumerated HID device: the identity fields the selection logic reads,
/// and the opaque enumeration record used to open it.
pub struct HidEntry {
    pub vendor_id: u16,
    pub product_id: u16,
    pub interface_number: i32,
    pub info: hidapi::DeviceInfo,
}

/// Relies on `hidapi::HidApi::new`: initializes the context and enumerates
/// the attached HID devices.
#[verifier::external_body]
fn hid_api_new() -> (r: Result<hidapi::HidApi, DeviceError>)
    ensures
        r matches Err(e) ==> e == DeviceError::ConnectionFailed,
{
    hidapi::HidApi::new().map_err(|_| DeviceError::ConnectionFailed)
}

/// Relies on `hidapi::HidApi::device_list` and the `DeviceInfo` accessors
/// `vendor_id`, `product_id` and `interface_number`: one entry per
/// enumerated device, each carrying its identity fields.  What is attached
/// depends on the machine, so nothing is promised of the list.
#[verifier::external_body]
fn hid_list_entries(api: &hidapi::HidApi) -> (r: Vec<HidEntry>) {
    let mut entries = Vec::new();
    for d in api.device_list() {
        entries.push(HidEntry {
            vendor_id: d.vendor_id(),
            product_id: d.product_id(),
            interface_number: d.interface_number(),
            info: d.clone(),
        });
    }
    entries
}

/// Relies on `hidapi::DeviceInfo::open_device`: opens the device that the
/// enumeration record describes.
#[verifier::external_body]
fn hid_open_entry(api: &hidapi::HidApi, entry: &HidEntry) -> (r: Result<
    hidapi::HidDevice,
    DeviceError,
>)
    ensures
        r matches Err(e) ==> e == DeviceError::NotFound,
{
    entry.info.open_device(api).map_err(|_| DeviceError::NotFound)
}

/// Relies on `hidapi::HidDevice::write`: sends one output report.  `None`
/// on a transport failure.
#[verifier::external_body]
fn hid_write(device: &hidapi::HidDevice, data: &[u8]) -> (r: Option<usize>) {
    device.write(data).ok()
}

/// Relies on `hidapi::HidDevice::read_timeout`: reads one input report into
/// a 64-byte buffer, waiting at most the given number of milliseconds.  On
/// success the result holds the bytes read, at most 64 of them; an empty
/// result means the timeout elapsed.  `None` on a transport failure.
#[verifier::external_body]
fn hid_read_timeout(device: &hidapi::HidDevice, timeout_ms: i32) -> (r: Option<Vec<u8>>)
    ensures
        r matches Some(v) ==> v@.len() <= 64,
{
    let mut buf = [0u8; 64];
    match device.read_timeout(&mut buf, timeout_ms) {
        Ok(size) => Some(buf[..size].to_vec()),
        Err(_) => None,
    }
}

/// The identity of one enumerated HID device, as the selection logic
/// reads it.
#[derive(Debug, Clone, Copy, PartialEq, Eq, Structural)]
pub struct HidTarget {
    pub vendor_id: u16,
    pub product_id: u16,
    pub interface_number: i32,
}

impl HidEntry {
    /// The identity fields of this entry.
    pub open spec fn spec_target(self) -> HidTarget {
        HidTarget {
            vendor_id: self.vendor_id,
            product_id: self.product_id,
            interface_number: self.interface_number,
        }
    }
}

/// Whether an enumerated device is the requested unit: the vendor/product
/// pair matches and the reported interface is the protocol interface (2)
/// or unspecified (-1).
pub open spec fn spec_target_matches(t: HidTarget, vendor_id: u16, product_id: u16) -> bool {
    t.vendor_id == vendor_id && t.product_id == product_id && (t.interface_number == 2
        || t.interface_number == -1)
}

/// Select the first enumerated device that matches the vendor/product
/// pair on the protocol interface.  Fails with `NotFound` exactly when no
/// entry matches.
pub fn resolve_hid_target(targets: &Vec<HidTarget>, vendor_id: u16, product_id: u16) -> (r: Result<
    usize,
    DeviceError,
>)
    ensures
        r matches Ok(i) ==> i < targets@.len() && spec_target_matches(
            targets@[i as int],
            vendor_id,
            product_id,
        ) && forall|j: int|
            0 <= j < i ==> !spec_target_matches(targets@[j], vendor_id, product_id),
        r is Err <==> forall|j: int|
            0 <= j < targets@.len() ==> !spec_target_matches(targets@[j], vendor_id, product_id),
        r matches Err(e) ==> e == DeviceError::NotFound,
{
    let mut i: usize = 0;
    while i < targets.len()
        invariant
            i <= targets@.len(),
            forall|j: int| 0 <= j < i ==> !spec_target_matches(targets@[j], vendor_id, product_id),
        decreases targets@.len() - i,
    {
        let t = &targets[i];
        if t.vendor_id == vendor_id && t.product_id == product_id && (t.interface_number == 2
            || t.interface_number == -1) {
            return Ok(i);
        }
        i += 1;
    }
    Err(DeviceError::NotFound)
}

/// The caller's parameter bytes zero-padded to a format's parameter size.
pub open spec fn spec_padded_params(params: Seq<u8>, size: int) -> Seq<u8> {
    Seq::new(
        size as nat,
        |i: int|
            if i < params.len() {
                params[i]
            } else {
                0u8
            },
    )
}

/// The exact wire form of a request: a Short frame when the parameters fit
/// in 3 bytes, else a Long frame, carrying the device index, the feature
/// index, the function/session byte and the parameters zero-padded.
pub open spec fn spec_request_bytes(
    device_index: u8,
    feature_index: u8,
    function_id: u8,
    software_id: u8,
    params: Seq<u8>,
) -> Seq<u8> {
    if params.len() <= 3 {
        seq![
            REPORT_ID_SHORT,
            device_index,
            feature_index,
            spec_fs_byte(function_id, software_id),
        ] + spec_padded_params(params, 3)
    } else {
        seq![
            REPORT_ID_LONG,
            device_index,
            feature_index,
            spec_fs_byte(function_id, software_id),
        ] + spec_padded_params(params, 16)
    }
}

/// What a lookup in an association list of (feature id, index) pairs finds:
/// the value of the first pair with the given id.
pub open spec fn cache_lookup(entries: Seq<(u16, u8)>, feature_id: u16) -> Option<u8>
    decreases entries.len(),
{
    if entries.len() == 0 {
        None
    } else if entries[0].0 == feature_id {
        Some(entries[0].1)
    } else {
        cache_lookup(entries.drop_first(), feature_id)
    }
}

proof fn lemma_lookup_none(entries: Seq<(u16, u8)>, feature_id: u16)
    requires
        cache_lookup(entries, feature_id) is None,
    ensures
        forall|i: int| 0 <= i < entries.len() ==> (#[trigger] entries[i]).0 != feature_id,
    decreases entries.len(),
{
    if entries.len() > 0 {
        lemma_lookup_none(entries.drop_first(), feature_id);
        assert forall|i: int| 0 <= i < entries.len() implies (#[trigger] entries[i]).0
            != feature_id by {
            if i > 0 {
                assert(entries.drop_first()[i - 1] == entries[i]);
            }
        }
    }
}

proof fn lemma_lookup_some(entries: Seq<(u16, u8)>, feature_id: u16)
    requires
        cache_lookup(entries, feature_id) is Some,
    ensures
        exists|i: int|
            0 <= i < entries.len() && (#[trigger] entries[i]) == (
            feature_id,
            cache_lookup(entries, feature_id)->Some_0,
            ),
    decreases entries.len(),
{
    if entries[0].0 == feature_id {
        assert(entries[0] == (feature_id, cache_lookup(entries, feature_id)->Some_0));
    } else {
        lemma_lookup_some(entries.drop_first(), feature_id);
        let i = choose|i: int|
            0 <= i < entries.drop_first().len() && (#[trigger] entries.drop_first()[i]) == (
            feature_id,
            cache_lookup(entries.drop_first(), feature_id)->Some_0,
            );
        assert(entries[i + 1] == entries.drop_first()[i]);
    }
}

proof fn lemma_lookup_push(entries: Seq<(u16, u8)>, feature_id: u16, index: u8, probe: u16)
    ensures
        cache_lookup(entries.push((feature_id, index)), probe) == (
        if cache_lookup(entries, probe) is Some {
            cache_lookup(entries, probe)
        } else if probe == feature_id {
            Some(index)
        } else {
            None
        }),
    decreases entries.len(),
{
    let pushed = entries.push((feature_id, index));
    if entries.len() == 0 {
        assert(pushed[0] == (feature_id, index));
        if probe != feature_id {
            assert(pushed.drop_first() =~= entries);
        }
    } else {
        assert(pushed[0] == entries[0]);
        lemma_lookup_push(entries.drop_first(), feature_id, index, probe);
        assert(pushed.drop_first() =~= entries.drop_first().push((feature_id, index)));
    }
}

/// Mapping from logical 16-bit feature ids to the per-session index a lookup
/// resolved each to.  Keys are unique, and the invalid-index sentinel 0 is
/// never stored.
pub struct FeatureCache {
    entries: Vec<(u16, u8)>,
}

impl FeatureCache {
    pub closed spec fn spec_entries(self) -> Seq<(u16, u8)> {
        self.entries@
    }

    /// The index cached for a feature id, if any.
    pub open spec fn spec_lookup(self, feature_id: u16) -> Option<u8> {
        cache_lookup(self.spec_entries(), feature_id)
    }

    /// Keys unique; no cached index is the invalid sentinel 0.
    pub closed spec fn spec_wf(self) -> bool {
        (forall|i: int, j: int|
            0 <= i < j < self.entries@.len() ==> (#[trigger] self.entries@[i]).0 != (
            #[trigger] self.entries@[j]).0) && (forall|i: int|
            0 <= i < self.entries@.len() ==> (#[trigger] self.entries@[i]).1 != 0)
    }

    pub fn new() -> (r: Self)
        ensures
            r.spec_wf(),
            r.spec_entries() == Seq::<(u16, u8)>::empty(),
            forall|id: u16| r.spec_lookup(id) is None,
    {
        let r = FeatureCache { entries: Vec::new() };
        proof {
            assert(r.entries@ =~= Seq::<(u16, u8)>::empty());
        }
        r
    }

    /// The cached index for a feature id, or `None` when the id was never
    /// resolved in this session.
    pub fn get(&self, feature_id: u16) -> (r: Option<u8>)
        ensures
            r == self.spec_lookup(feature_id),
    {
        proof {
            assert(self.entries@.skip(0) =~= self.entries@);
        }
        let mut i: usize = 0;
        while i < self.entries.len()
            invariant
                i <= self.entries@.len(),
                cache_lookup(self.entries@, feature_id) == cache_lookup(
                    self.entries@.skip(i as int),
                    feature_id,
                ),
            decreases self.entries@.len() - i,
        {
            let (id, index) = self.entries[i];
            proof {
                assert(self.entries@.skip(i as int)[0] == self.entries@[i as int]);
            }
            if id == feature_id {
                return Some(index);
            }
            proof {
                assert(self.entries@.skip(i as int).drop_first() =~= self.entries@.skip(
                    i as int + 1,
                ));
            }
            i += 1;
        }
        proof {
            assert(self.entries@.skip(i as int) =~= Seq::<(u16, u8)>::empty());
        }
        None
    }

    /// Record the index a lookup resolved a feature id to.  An id is cached
    /// at most once per session, and the sentinel 0 never is.
    pub fn put(&mut self, feature_id: u16, index: u8)
        requires
            old(self).spec_wf(),
            old(self).spec_lookup(feature_id) is None,
            index != 0,
        ensures
            final(self).spec_wf(),
            final(self).spec_entries() == old(self).spec_entries().push((feature_id, index)),
            forall|id: u16|
                final(self).spec_lookup(id) == (if id == feature_id {
                    Some(index)
                } else {
                    old(self).spec_lookup(id)
                }),
    {
        proof {
            lemma_lookup_none(self.entries@, feature_id);
        }
        let ghost before = self.entries@;
        self.entries.push((feature_id, index));
        proof {
            assert forall|id: u16|
                final(self).spec_lookup(id) == (if id == feature_id {
                    Some(index)
                } else {
                    cache_lookup(before, id)
                }) by {
                lemma_lookup_push(before, feature_id, index, id);
                if cache_lookup(before, id) is Some {
                    assert(id != feature_id);
                }
            }
        }
    }

    /// How many feature ids are cached.
    pub fn len(&self) -> (r: usize)
        ensures
            r == self.spec_entries().len(),
    {
        self.entries.len()
    }
}

/// One open protocol session to one physical unit.
pub struct HidppDevice {
    device: hidapi::HidDevice,
    device_index: u8,
    feature_cache: FeatureCache,
    software_id: u8,
    exchanges: Ghost<nat>,
    last_request: Ghost<Seq<u8>>,
    last_reply: Ghost<Seq<u8>>,
}

impl HidppDevice {
    /// The per-session feature cache.
    pub closed spec fn spec_cache(self) -> FeatureCache {
        self.feature_cache
    }

    pub closed spec fn spec_device_index(self) -> u8 {
        self.device_index
    }

    pub closed spec fn spec_software_id(self) -> u8 {
        self.software_id
    }

    /// How many command exchanges (one write, one read) this session has
    /// performed.
    pub closed spec fn spec_exchanges(self) -> nat {
        self.exchanges@
    }

    /// The bytes of the last request frame this session handed to the
    /// transport.
    pub closed spec fn spec_last_request(self) -> Seq<u8> {
        self.last_request@
    }

    /// The bytes of the last report this session read from the transport.
    pub closed spec fn spec_last_reply(self) -> Seq<u8> {
        self.last_reply@
    }

    pub open spec fn spec_wf(self) -> bool {
        self.spec_cache().spec_wf() && self.spec_software_id() <= 0x0F
    }

    /// Open the first enumerated device that matches the vendor/product
    /// pair on the protocol interface.  Fails with `NotFound` when no
    /// enumerated entry matches or the matching one cannot be opened, and
    /// with `ConnectionFailed` when the transport context cannot start.
    pub fn open_vid_pid(vendor_id: u16, product_id: u16, device_index: u8) -> (r: Result<
        Self,
        DeviceError,
    >)
        ensures
            r matches Ok(d) ==> d.spec_wf() && d.spec_device_index() == device_index
                && d.spec_software_id() == 0x05 && d.spec_cache().spec_entries()
                == Seq::<(u16, u8)>::empty(),
            r matches Err(e) ==> (e == DeviceError::ConnectionFailed || e == DeviceError::NotFound),
    {
        let api = match hid_api_new() {
            Ok(api) => api,
            Err(e) => { return Err(e) },
        };
        let entries = hid_list_entries(&api);
        let mut targets: Vec<HidTarget> = Vec::new();
        let mut i: usize = 0;
        while i < entries.len()
            invariant
                targets@.len() == i <= entries@.len(),
                forall|j: int| 0 <= j < i ==> #[trigger] targets@[j] == entries@[j].spec_target(),
            decreases entries@.len() - i,
        {
            let e = &entries[i];
            targets.push(
                HidTarget {
                    vendor_id: e.vendor_id,
                    product_id: e.product_id,
                    interface_number: e.interface_number,
                },
            );
            i += 1;
        }
        let chosen = match resolve_hid_target(&targets, vendor_id, product_id) {
            Ok(i) => i,
            Err(e) => { return Err(e) },
        };
        let device = match hid_open_entry(&api, &entries[chosen]) {
            Ok(d) => d,
            Err(e) => { return Err(e) },
        };
        Ok(
            HidppDevice {
                device,
                device_index,
                feature_cache: FeatureCache::new(),
                software_id: 0x05,
                exchanges: Ghost(0),
                last_request: Ghost(Seq::empty()),
                last_reply: Ghost(Seq::empty()),
            },
        )
    }

    /// Build the request frame for the given feature index, function id
    /// and parameter bytes: Short when they fit in 3 bytes, else Long,
    /// zero-padded, serializing to exactly `spec_request_bytes`.
    fn build_request(&self, feature_index: u8, function_id: u8, params: &[u8]) -> (r: HidppPacket)
        requires
            params@.len() <= 16,
        ensures
            spec_to_bytes(r) == spec_request_bytes(
                self.spec_device_index(),
                feature_index,
                function_id,
                self.spec_software_id(),
                params@,
            ),
    {
        if params.len() <= 3 {
            let mut parameters = [0u8; 3];
            let mut i: usize = 0;
            while i < params.len()
                invariant
                    i <= params@.len() <= 3,
                    forall|k: int| 0 <= k < i ==> parameters@[k] == params@[k],
                    forall|k: int| i <= k < 3 ==> parameters@[k] == 0,
                decreases params@.len() - i,
            {
                parameters[i] = params[i];
                i += 1;
            }
            let r = HidppPacket::new_short(
                self.device_index,
                feature_index,
                function_id,
                self.software_id,
                parameters,
            );
            proof {
                assert(parameters@ =~= spec_padded_params(params@, 3));
                assert(spec_to_bytes(r) =~= spec_request_bytes(
                    self.spec_device_index(),
                    feature_index,
                    function_id,
                    self.spec_software_id(),
                    params@,
                ));
            }
            r
        } else {
            let mut parameters = [0u8; 16];
            let mut i: usize = 0;
            while i < params.len()
                invariant
                    i <= params@.len() <= 16,
                    forall|k: int| 0 <= k < i ==> parameters@[k] == params@[k],
                    forall|k: int| i <= k < 16 ==> parameters@[k] == 0,
                decreases params@.len() - i,
            {
                parameters[i] = params[i];
                i += 1;
            }
            let r = HidppPacket::new_long(
                self.device_index,
                feature_index,
                function_id,
                self.software_id,
                parameters,
            );
            proof {
                assert(parameters@ =~= spec_padded_params(params@, 16));
                assert(spec_to_bytes(r) =~= spec_request_bytes(
                    self.spec_device_index(),
                    feature_index,
                    function_id,
                    self.spec_software_id(),
                    params@,
                ));
            }
            r
        }
    }

    /// One exchange: serialize, write, read one report within the timeout,
    /// decode.  `Timeout` when nothing arrived within the bound,
    /// `InvalidResponse` when what arrived does not decode, `CommandFailed`
    /// on a transport failure (the caller retries those).
    fn send_packet_with_response(&mut self, packet: &HidppPacket) -> (r: Result<
        HidppPacket,
        DeviceError,
    >)
        requires
            old(self).spec_wf(),
        ensures
            final(self).spec_wf(),
            final(self).spec_cache() == old(self).spec_cache(),
            final(self).spec_device_index() == old(self).spec_device_index(),
            final(self).spec_software_id() == old(self).spec_software_id(),
            final(self).spec_exchanges() == old(self).spec_exchanges() + 1,
            final(self).spec_last_request() == spec_to_bytes(*packet),
            r matches Ok(p) ==> p.spec_wf() && spec_parseable(final(self).spec_last_reply())
                && spec_decoded(final(self).spec_last_reply(), p),
            r matches Err(e) ==> (e == DeviceError::CommandFailed || e == DeviceError::Timeout
                || e == DeviceError::InvalidResponse),
    {
        let bytes = packet.to_bytes();
        proof {
            self.exchanges@ = self.exchanges@ + 1;
            self.last_request@ = bytes@;
        }
        match hid_write(&self.device, bytes.as_slice()) {
            Some(_) => {},
            None => { return Err(DeviceError::CommandFailed) },
        }
        let buf = match hid_read_timeout(&self.device, DEFAULT_TIMEOUT_MS) {
            Some(b) => b,
            None => { return Err(DeviceError::CommandFailed) },
        };
        proof {
            self.last_reply@ = buf@;
        }
        if buf.len() == 0 {
            return Err(DeviceError::Timeout);
        }
        HidppPacket::from_bytes(buf.as_slice())
    }

    /// Build the request frame for the given feature index, function id
    /// and parameter bytes, hand its exact wire form to the transport, and
    /// read the reply; retry a busy reply or a transport failure up to two
    /// more times, re-sending the same frame.
    ///
    /// Fails with `InvalidRequest` exactly when more than 16 parameter
    /// bytes are handed in, before anything is sent.  Otherwise the frame
    /// handed to the transport is `spec_request_bytes` of the arguments.
    /// A success is the decoded reply, a non-error frame, returned
    /// unmodified; a device-reported error code other than busy is
    /// classified and returned at once; retries exhausted end in
    /// `CommandFailed`; `Timeout` and `InvalidResponse` end the command at
    /// once.
    pub fn send_command(&mut self, feature_index: u8, function_id: u8, params: &[u8]) -> (r: Result<
        HidppPacket,
        DeviceError,
    >)
        requires
            old(self).spec_wf(),
            function_id <= 0x0F,
        ensures
            final(self).spec_wf(),
            final(self).spec_cache() == old(self).spec_cache(),
            final(self).spec_device_index() == old(self).spec_device_index(),
            final(self).spec_software_id() == old(self).spec_software_id(),
            params@.len() > 16 ==> r == Err::<HidppPacket, DeviceError>(DeviceError::InvalidRequest)
                && *final(self) == *old(self),
            params@.len() <= 16 ==> r != Err::<HidppPacket, DeviceError>(
                DeviceError::InvalidRequest,
            ),
            params@.len() <= 16 ==> old(self).spec_exchanges() + 1 <= final(self).spec_exchanges()
                <= old(self).spec_exchanges() + RETRY_COUNT,
            params@.len() <= 16 ==> final(self).spec_last_request() == spec_request_bytes(
                old(self).spec_device_index(),
                feature_index,
                function_id,
                old(self).spec_software_id(),
                params@,
            ),
            r matches Ok(p) ==> !p.spec_is_error() && p.spec_wf() && spec_parseable(
                final(self).spec_last_reply(),
            ) && spec_decoded(final(self).spec_last_reply(), p),
            r matches Err(e) ==> (e == DeviceError::InvalidRequest || e == DeviceError::Timeout
                || e == DeviceError::InvalidResponse || e == DeviceError::CommandFailed || (
            exists|code: u8| code != ERROR_BUSY && e == #[trigger] spec_wire_error(code))),
    {
        if params.len() > 16 {
            return Err(DeviceError::InvalidRequest);
        }
        let packet = self.build_request(feature_index, function_id, params);

        let ghost base = self.exchanges@;
        let mut attempt: usize = 0;
        while attempt < RETRY_COUNT
            invariant
                old(self).spec_wf(),
                self.spec_wf(),
                self.spec_cache() == old(self).spec_cache(),
                self.spec_device_index() == old(self).spec_device_index(),
                self.spec_software_id() == old(self).spec_software_id(),
                base == old(self).spec_exchanges(),
                self.spec_exchanges() == base + attempt,
                attempt <= RETRY_COUNT,
                params@.len() <= 16,
                spec_to_bytes(packet) == spec_request_bytes(
                    old(self).spec_device_index(),
                    feature_index,
                    function_id,
                    old(self).spec_software_id(),
                    params@,
                ),
                attempt > 0 ==> self.spec_last_request() == spec_to_bytes(packet),
            decreases RETRY_COUNT - attempt,
        {
            match self.send_packet_with_response(&packet) {
                Ok(response) => {
                    if response.is_error() {
                        let code = match response.get_error_code() {
                            Some(code) => code,
                            None => {
                                proof {
                                    assert(false);
                                }
                                return Err(DeviceError::CommandFailed);
                            },
                        };
                        if code != ERROR_BUSY {
                            return Err(map_wire_error(code));
                        }
                        // busy: fall through to the next attempt
                    } else {
                        return Ok(response);
                    }
                },
                Err(e) => {
                    match e {
                        DeviceError::CommandFailed => {
                            // transport failure: retried like a busy reply
                        },
                        _ => { return Err(e) },
                    }
                },
            }
            attempt += 1;
        }
        Err(DeviceError::CommandFailed)
    }

    /// Resolve the per-session index of a feature id.  A cached id is
    /// answered from the cache, with the session left exactly as it was and
    /// no command exchanged; otherwise one root-feature lookup command is
    /// issued, an index of 0 in the reply is `UnsupportedFeature`, and any
    /// nonzero index — parameter byte 0 of the reply — is cached and
    /// returned.
    pub fn get_feature_index(&mut self, feature_id: u16) -> (r: Result<u8, DeviceError>)
        requires
            old(self).spec_wf(),
        ensures
            final(self).spec_wf(),
            final(self).spec_device_index() == old(self).spec_device_index(),
            final(self).spec_software_id() == old(self).spec_software_id(),
            old(self).spec_cache().spec_lookup(feature_id) matches Some(index) ==> r == Ok::<
                u8,
                DeviceError,
            >(index) && *final(self) == *old(self),
            old(self).spec_cache().spec_lookup(feature_id) is None ==> old(self).spec_exchanges()
                + 1 <= final(self).spec_exchanges() <= old(self).spec_exchanges() + RETRY_COUNT,
            old(self).spec_cache().spec_lookup(feature_id) is None
                ==> final(self).spec_last_request() == spec_request_bytes(
                old(self).spec_device_index(),
                ROOT_INDEX,
                RootFunction::GetFeature.spec_code(),
                old(self).spec_software_id(),
                seq![(feature_id >> 8) as u8, (feature_id & 0xFF) as u8, 0u8],
            ),
            old(self).spec_cache().spec_lookup(feature_id) is None && r is Ok ==> spec_parseable(
                final(self).spec_last_reply(),
            ) && (forall|p: HidppPacket|
                spec_decoded(final(self).spec_last_reply(), p) ==> r->Ok_0
                    == p.spec_parameters()[0]),
            r matches Ok(index) ==> index != 0 && final(self).spec_cache().spec_lookup(feature_id)
                == Some(index),
            r matches Ok(index) ==> forall|id: u16|
                id != feature_id ==> final(self).spec_cache().spec_lookup(id) == old(
                    self,
                ).spec_cache().spec_lookup(id),
            r is Err ==> final(self).spec_cache() == old(self).spec_cache(),
    {
        match self.feature_cache.get(feature_id) {
            Some(index) => {
                proof {
                    lemma_lookup_some(self.feature_cache.spec_entries(), feature_id);
                }
                return Ok(index);
            },
            None => {},
        }

        let params: [u8; 3] = [(feature_id >> 8) as u8, (feature_id & 0xFF) as u8, 0x00];
        proof {
            assert(params@ =~= seq![(feature_id >> 8) as u8, (feature_id & 0xFF) as u8, 0u8]);
        }
        let response = match self.send_command(
            ROOT_INDEX,
            RootFunction::GetFeature.code(),
            params.as_slice(),
        ) {
            Ok(response) => response,
            Err(e) => { return Err(e) },
        };

        let index = match index_from_lookup_reply(&response) {
            Ok(index) => index,
            Err(e) => { return Err(e) },
        };
        proof {
            assert forall|p: HidppPacket|
                spec_decoded(self.spec_last_reply(), p) implies index
                == p.spec_parameters()[0] by {
                lemma_decode_deterministic(self.spec_last_reply(), p, response);
            }
        }

        self.feature_cache.put(feature_id, index);
        Ok(index)
    }

    /// Validate that the unit is present and responsive: send the
    /// root-feature ping with zero parameters and treat any non-error
    /// reply as success.
    pub fn ping(&mut self) -> (r: Result<(), DeviceError>)
        requires
            old(self).spec_wf(),
        ensures
            final(self).spec_wf(),
            final(self).spec_cache() == old(self).spec_cache(),
            final(self).spec_device_index() == old(self).spec_device_index(),
            final(self).spec_software_id() == old(self).spec_software_id(),
            old(self).spec_exchanges() + 1 <= final(self).spec_exchanges() <= old(
                self,
            ).spec_exchanges() + RETRY_COUNT,
            final(self).spec_last_request() == spec_request_bytes(
                old(self).spec_device_index(),
                ROOT_INDEX,
                RootFunction::Ping.spec_code(),
                old(self).spec_software_id(),
                seq![0u8, 0u8, 0u8],
            ),
    {
        let params: [u8; 3] = [0, 0, 0];
        proof {
            assert(params@ =~= seq![0u8, 0u8, 0u8]);
        }
        match self.send_command(ROOT_INDEX, RootFunction::Ping.code(), params.as_slice()) {
            Ok(_) => Ok(()),
            Err(e) => Err(e),
        }
    }
}

/// The per-session feature index carried in a root-lookup reply:
/// parameter byte 0, where the sentinel 0 means the feature is not
/// supported by the unit.
pub fn index_from_lookup_reply(reply: &HidppPacket) -> (r: Result<u8, DeviceError>)
    ensures
        r == (if reply.spec_parameters()[0] == 0 {
            Err::<u8, DeviceError>(DeviceError::UnsupportedFeature)
        } else {
            Ok::<u8, DeviceError>(reply.spec_parameters()[0])
        }),
{
    let index = match reply {
        HidppPacket::Short(p) => p.parameters[0],
        HidppPacket::Long(p) => p.parameters[0],
    };
    if index == 0 {
        Err(DeviceError::UnsupportedFeature)
    } else {
        Ok(index)
    }
}

} // verus!
