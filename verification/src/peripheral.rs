//! Peripheral handles: identity, metadata, the transport binding, and the
//! planning and completion halves of read, write and request.
//!
//! A handle is constructed at discovery time with its identity, its
//! metadata and its transport binding all populated at once; it is never
//! handed out half-built. The native transports themselves are driven
//! outside this crate: every operation here either computes over plain
//! values or plans an [`IoAction`] for the caller to perform and then
//! resolves the transport's outcome.

use vstd::prelude::*;
use vstd::pervasive::VecAdditionalExecFns;
use crate::enums::ChipManufacturer;
use crate::enums::ChipType;
use crate::enums::ConnectionType;
use crate::enums::DeviceType;
use crate::enums::Error;

verus! {

/// The tail common to every standard 16-bit Bluetooth UUID: byte five to
/// byte fifteen of `0000xxxx-0000-1000-8000-00805f9b34fb`.
pub const BLUETOOTH_BASE_UUID: u128 = 0x00000000_0000_1000_8000_00805F9B34FB;

/// One unit of the 16-bit field of a full Bluetooth UUID: the weight of
/// bit 96.
pub const BLUETOOTH_SHORT_UUID_UNIT: u128 = 0x0000_0001_0000_0000_0000_0000_0000_0000;

/// The communication service.
pub const SERVICE_UUID: u128 = 0x0000FF00_0000_1000_8000_00805F9B34FB;

/// The read/write/notify characteristic of the communication service.
pub const WRITE_READ_NOTIFY_UUID: u128 = 0x0000FF01_0000_1000_8000_00805F9B34FB;

/// The device-information service.
pub const DEVICE_INFO_SERVICE_UUID: u128 = 0x0000180A_0000_1000_8000_00805F9B34FB;

/// The PnP-ID characteristic, carrying vendor and product identifiers.
pub const PNP_ID_UUID: u128 = 0x00002A50_0000_1000_8000_00805F9B34FB;

/// The firmware-revision string characteristic.
pub const FIRMWARE_REVISION_UUID: u128 = 0x00002A26_0000_1000_8000_00805F9B34FB;

/// The hardware-revision string characteristic.
pub const HARDWARE_REVISION_UUID: u128 = 0x00002A27_0000_1000_8000_00805F9B34FB;

/// The software-revision string characteristic.
pub const SOFTWARE_REVISION_UUID: u128 = 0x00002A28_0000_1000_8000_00805F9B34FB;

/// How many seconds a request waits for a notification before it fails;
/// the timeout error carries the same bound.
pub const REQUEST_TIMEOUT_SECS: u64 = 2;

/// Expands a standard 16-bit Bluetooth UUID to its full 128-bit form by
/// placing it in bits 96 to 111 over the Bluetooth base UUID.
pub fn ble_uuid_from_u16(short: u16) -> (r: u128)
    ensures
        r == BLUETOOTH_BASE_UUID + short * BLUETOOTH_SHORT_UUID_UNIT,
{
    BLUETOOTH_BASE_UUID + (short as u128) * BLUETOOTH_SHORT_UUID_UNIT
}

/// An opaque 128-bit identifier naming one discovered device.
///
/// For BLE devices it is derived deterministically from the 6-byte native
/// connection identifier, zero-padded to 16 bytes; for USB devices it is
/// generated fresh once per constructed handle.
#[derive(Debug, Clone, Copy, PartialEq, Eq, Structural)]
pub struct PeripheralIdentity {
    pub value: u128,
}

/// The value a 6-byte native BLE connection identifier derives to, read as
/// the first six bytes of a big-endian 16-byte word whose tail is zero.
pub open spec fn spec_ble_identity(native: Seq<u8>) -> int {
    native[0] * 0x0100_0000_0000_0000_0000_0000_0000_0000
        + native[1] * 0x0001_0000_0000_0000_0000_0000_0000_0000
        + native[2] * 0x0000_0100_0000_0000_0000_0000_0000_0000
        + native[3] * 0x0000_0001_0000_0000_0000_0000_0000_0000
        + native[4] * 0x0000_0000_0100_0000_0000_0000_0000_0000
        + native[5] * 0x0000_0000_0001_0000_0000_0000_0000_0000
}

impl PeripheralIdentity {
    /// Derives the identity of a BLE device from its native 6-byte
    /// connection identifier. The derivation is a pure function of the
    /// bytes, so the same native identifier always round-trips to the same
    /// identity.
    pub fn from_ble_native_id(native: &[u8; 6]) -> (r: Self)
        ensures
            r.value == spec_ble_identity(native@),
    {
        let id: u128 = (native[0] as u128) * 0x0100_0000_0000_0000_0000_0000_0000_0000
            + (native[1] as u128) * 0x0001_0000_0000_0000_0000_0000_0000_0000
            + (native[2] as u128) * 0x0000_0100_0000_0000_0000_0000_0000_0000
            + (native[3] as u128) * 0x0000_0001_0000_0000_0000_0000_0000_0000
            + (native[4] as u128) * 0x0000_0000_0100_0000_0000_0000_0000_0000
            + (native[5] as u128) * 0x0000_0000_0001_0000_0000_0000_0000_0000;
        PeripheralIdentity { value: id }
    }
}

/// Identity derivation from a native BLE connection identifier is
/// deterministic: two derivations from equal byte sequences always name the
/// same identity.
pub proof fn lemma_ble_identity_deterministic(a: Seq<u8>, b: Seq<u8>)
    requires
        a == b,
    ensures
        spec_ble_identity(a) == spec_ble_identity(b),
{
}

/// Relies on `uuid::Uuid::new_v4` for a fresh random 128-bit identifier.
/// The value is random, so nothing is assumed of it.
#[verifier::external_body]
fn random_identity_bits() -> u128 {
    uuid::Uuid::new_v4().as_u128()
}

/// What the bytes of a characteristic read decode to as UTF-8: the
/// characters when the bytes are valid UTF-8, and nothing otherwise. The
/// result depends on the bytes alone.
pub uninterp spec fn utf8_decoded(bytes: Seq<u8>) -> Option<Seq<char>>;

/// Relies on `String::from_utf8`: whether the bytes are valid UTF-8, and
/// which characters they decode to, are functions of the bytes alone.
#[verifier::external_body]
fn utf8_decode(bytes: &Vec<u8>) -> (r: Option<String>)
    ensures
        (match r {
            Some(s) => utf8_decoded(bytes@) == Some(s@),
            None => utf8_decoded(bytes@) is None,
        }),
{
    match String::from_utf8(bytes.clone()) {
        Ok(s) => Some(s),
        Err(_) => None,
    }
}

/// The characters that `bytes` decode to as UTF-8, or no characters at all
/// where the bytes are not valid UTF-8.
pub open spec fn spec_utf8_or_empty(bytes: Seq<u8>) -> Seq<char> {
    match utf8_decoded(bytes) {
        Some(s) => s,
        None => Seq::empty(),
    }
}

/// Decodes `bytes` as UTF-8, falling back to the empty string where they
/// are not valid UTF-8.
pub fn utf8_or_empty(bytes: &Vec<u8>) -> (r: String)
    ensures
        r@ == spec_utf8_or_empty(bytes@),
{
    match utf8_decode(bytes) {
        Some(s) => s,
        None => String::new(),
    }
}

/// The static descriptor of a native USB HID device, as discovery reports
/// it.
#[derive(Debug, Clone)]
pub struct UsbDeviceInfo {
    pub vendor_id: u16,
    pub product_id: u16,
    /// The platform path under which the device is reached.
    pub path: String,
    /// The byte length of the device's input report.
    pub input_report_byte_length: u16,
}

impl UsbDeviceInfo {
    /// An exact copy of this descriptor.
    pub fn duplicate(&self) -> (r: Self)
        ensures
            r == *self,
    {
        UsbDeviceInfo {
            vendor_id: self.vendor_id,
            product_id: self.product_id,
            path: self.path.clone(),
            input_report_byte_length: self.input_report_byte_length,
        }
    }
}

/// The descriptor of a native BLE peripheral that the handle keeps as its
/// transport binding.
#[derive(Debug, Clone)]
pub struct BleDeviceInfo {
    /// The native 6-byte connection identifier.
    pub native_id: [u8; 6],
    /// The peripheral's address, printed.
    pub address: String,
}

/// A BLE peripheral as discovery offers it: its descriptor together with
/// the UUIDs of the characteristics it exposes.
#[derive(Debug, Clone)]
pub struct BleCandidate {
    pub device: BleDeviceInfo,
    /// The full 128-bit UUID of each characteristic the candidate exposes.
    pub characteristics: Vec<u128>,
}

/// What the device-information service of a BLE peripheral answered at
/// construction time.
#[derive(Debug, Clone)]
pub struct BleDeviceDetails {
    /// The PnP-ID characteristic's value.
    pub pnp: Vec<u8>,
    /// The firmware-revision string characteristic's value.
    pub firmware_revision: Vec<u8>,
    /// The hardware-revision string characteristic's value.
    pub hardware_revision: Vec<u8>,
    /// The software-revision string characteristic's value.
    pub software_revision: Vec<u8>,
    /// The advertised properties: nothing where the property read failed,
    /// and otherwise the local name, where the peripheral advertises one.
    pub properties: Option<Option<String>>,
}

/// The transport a peripheral handle is bound to.
#[derive(Debug, Clone)]
pub enum Device {
    Usb(UsbDeviceInfo),
    Ble(BleDeviceInfo),
}

impl Device {
    /// An exact copy of this binding.
    pub fn duplicate(&self) -> (r: Self)
        ensures
            r == *self,
    {
        match self {
            Device::Usb(d) => Device::Usb(
                UsbDeviceInfo {
                    vendor_id: d.vendor_id,
                    product_id: d.product_id,
                    path: d.path.clone(),
                    input_report_byte_length: d.input_report_byte_length,
                },
            ),
            Device::Ble(d) => Device::Ble(
                BleDeviceInfo { native_id: d.native_id, address: d.address.clone() },
            ),
        }
    }
}

/// Whether one of the characteristic UUIDs equals `u`.
pub(crate) fn contains_uuid(chars: &Vec<u128>, u: u128) -> (r: bool)
    ensures
        r == chars@.contains(u),
{
    let mut i: usize = 0;
    while i < chars.len()
        invariant
            i <= chars@.len(),
            forall|j: int| 0 <= j < i ==> chars@[j] != u,
        decreases chars@.len() - i,
    {
        if chars[i] == u {
            return true;
        }
        i = i + 1;
    }
    false
}

/// Whether a candidate's characteristic UUIDs expose both of the two a
/// supported device must carry: the communication characteristic and the
/// device-identification characteristic.
pub open spec fn spec_has_required_characteristics(chars: Seq<u128>) -> bool {
    chars.contains(WRITE_READ_NOTIFY_UUID) && chars.contains(PNP_ID_UUID)
}

/// Checks that a BLE candidate exposes both required characteristics;
/// with either one missing — whatever else the candidate exposes — the
/// candidate is unsupported.
pub fn validate_ble_characteristics(chars: &Vec<u128>) -> (r: Result<(), Error>)
    ensures
        r is Ok <==> spec_has_required_characteristics(chars@),
        r matches Err(e) ==> e matches Error::NonSupport,
{
    let has_communication = contains_uuid(chars, WRITE_READ_NOTIFY_UUID);
    let has_identification = contains_uuid(chars, PNP_ID_UUID);
    if has_communication && has_identification {
        Ok(())
    } else {
        Err(Error::NonSupport)
    }
}

/// Reads the vendor and product identifiers out of a PnP-ID
/// characteristic value: each is two little-endian bytes, the vendor's at
/// offsets one and two, the product's at offsets three and four.
pub fn parse_pnp_ids(pnp: &Vec<u8>) -> (r: (u16, u16))
    requires
        pnp@.len() >= 5,
    ensures
        r.0 == pnp@[2] * 256 + pnp@[1],
        r.1 == pnp@[4] * 256 + pnp@[3],
{
    let vid: u16 = (pnp[2] as u16) * 256 + (pnp[1] as u16);
    let pid: u16 = (pnp[4] as u16) * 256 + (pnp[3] as u16);
    (vid, pid)
}

/// The device name a BLE handle ends up with: the advertised local name
/// where the properties could be read (empty where none is advertised),
/// and the fallback name where the read failed.
pub open spec fn spec_ble_device_name(properties: Option<Option<String>>) -> Seq<char> {
    match properties {
        Some(local_name) => match local_name {
            Some(n) => n@,
            None => Seq::empty(),
        },
        None => "default"@,
    }
}

/// One transport operation for the caller to perform against the native
/// driver. Which operation a read, write or request needs is decided here;
/// performing it is the embedder's part.
#[derive(Debug, Clone)]
pub enum IoAction {
    /// Query the input report with the given report id and byte length.
    UsbGetInputReport { report_id: u8, len: usize },
    /// Send the bytes as an output report with the given report id.
    UsbSetOutputReport { report_id: u8, data: Vec<u8> },
    /// Read the characteristic of the service, both by full UUID.
    BleReadCharacteristic { service: u128, characteristic: u128 },
    /// Write the bytes to the characteristic of the service.
    BleWriteCharacteristic { service: u128, characteristic: u128, data: Vec<u8>, with_response: bool },
    /// Wait for the next value on this peripheral's notification channel,
    /// up to the given bound in seconds.
    BleAwaitNotification { timeout_secs: u64 },
}

/// An exact copy of a byte vector.
fn copy_bytes(src: &Vec<u8>) -> (r: Vec<u8>)
    ensures
        r@ == src@,
{
    let mut r: Vec<u8> = Vec::new();
    let mut i: usize = 0;
    while i < src.len()
        invariant
            i <= src@.len(),
            r@ == src@.subrange(0, i as int),
        decreases src@.len() - i,
    {
        r.push(src[i]);
        proof {
            assert(r@ =~= src@.subrange(0, i + 1));
        }
        i = i + 1;
    }
    proof {
        assert(r@ =~= src@);
    }
    r
}

/// A peripheral's I/O strategy: the transport binding, and the decisions
/// of how read, write and request map onto it.
#[derive(Debug, Clone)]
pub struct PeripheralDevice {
    pub device: Device,
}

impl PeripheralDevice {
    /// An exact copy of this strategy.
    pub fn duplicate(&self) -> (r: Self)
        ensures
            r == *self,
    {
        PeripheralDevice { device: self.device.duplicate() }
    }

    /// Plans a read of `len` bytes: a USB handle queries its vendor input
    /// report, a BLE handle reads the communication characteristic.
    pub fn read_action(&self, len: usize) -> (r: IoAction)
        ensures
            self.device matches Device::Usb(_) ==> (r matches IoAction::UsbGetInputReport {
                report_id,
                len: l,
            } && report_id == 0 && l == len),
            self.device matches Device::Ble(_) ==> (r matches IoAction::BleReadCharacteristic {
                service,
                characteristic,
            } && service == SERVICE_UUID && characteristic == WRITE_READ_NOTIFY_UUID),
    {
        match &self.device {
            Device::Usb(_) => IoAction::UsbGetInputReport { report_id: 0x00, len },
            Device::Ble(_) => IoAction::BleReadCharacteristic {
                service: SERVICE_UUID,
                characteristic: WRITE_READ_NOTIFY_UUID,
            },
        }
    }

    /// Resolves a read: the fetched bytes fill the front of the caller's
    /// buffer, the rest of the buffer keeps its old contents, and the
    /// number of bytes placed — the shorter of the two lengths — is
    /// returned.
    pub fn read_complete(buf: &mut Vec<u8>, data: &Vec<u8>) -> (n: usize)
        ensures
            final(buf)@.len() == old(buf)@.len(),
            n == (if data@.len() <= old(buf)@.len() {
                data@.len()
            } else {
                old(buf)@.len()
            }),
            forall|i: int| 0 <= i < n ==> final(buf)@[i] == data@[i],
            forall|i: int| n <= i < old(buf)@.len() ==> final(buf)@[i] == old(buf)@[i],
    {
        let n: usize = if data.len() <= buf.len() {
            data.len()
        } else {
            buf.len()
        };
        let mut i: usize = 0;
        while i < n
            invariant
                i <= n,
                n <= data@.len(),
                n <= buf@.len(),
                buf@.len() == old(buf)@.len(),
                forall|j: int| 0 <= j < i ==> buf@[j] == data@[j],
                forall|j: int| i <= j < buf@.len() ==> buf@[j] == old(buf)@[j],
            decreases n - i,
        {
            buf.set(i, data[i]);
            i = i + 1;
        }
        n
    }

    /// Plans a write of `src`: a USB handle sends its vendor output
    /// report, a BLE handle writes the communication characteristic with
    /// acknowledgment.
    pub fn write_action(&self, src: &Vec<u8>) -> (r: IoAction)
        ensures
            self.device matches Device::Usb(_) ==> (r matches IoAction::UsbSetOutputReport {
                report_id,
                data,
            } && report_id == 0 && data@ == src@),
            self.device matches Device::Ble(_) ==> (r matches IoAction::BleWriteCharacteristic {
                service,
                characteristic,
                data,
                with_response,
            } && service == SERVICE_UUID && characteristic == WRITE_READ_NOTIFY_UUID && data@
                == src@ && with_response),
    {
        match &self.device {
            Device::Usb(_) => IoAction::UsbSetOutputReport { report_id: 0x00, data: copy_bytes(src) },
            Device::Ble(_) => IoAction::BleWriteCharacteristic {
                service: SERVICE_UUID,
                characteristic: WRITE_READ_NOTIFY_UUID,
                data: copy_bytes(src),
                with_response: true,
            },
        }
    }

    /// Resolves a write: on transport success the whole payload counts as
    /// written; a transport failure is handed through unchanged.
    pub fn write_complete(src_len: usize, outcome: Result<(), Error>) -> (r: Result<usize, Error>)
        ensures
            outcome is Ok ==> (r matches Ok(n) && n == src_len),
            outcome matches Err(e) ==> (r matches Err(e2) && e2 == e),
    {
        match outcome {
            Ok(()) => Ok(src_len),
            Err(e) => Err(e),
        }
    }

    /// Plans a request carrying `src`: first the payload goes out exactly
    /// as a write would send it; then a USB handle immediately reads back
    /// an input report of the payload's length — the USB report model is
    /// half-duplex, no correlation is needed — while a BLE handle waits
    /// for the next value on its notification channel, bounded by the
    /// fixed timeout.
    pub fn request_actions(&self, src: &Vec<u8>) -> (r: (IoAction, IoAction))
        ensures
            self.device matches Device::Usb(_) ==> {
                &&& (r.0 matches IoAction::UsbSetOutputReport { report_id, data }
                    && report_id == 0 && data@ == src@)
                &&& (r.1 matches IoAction::UsbGetInputReport { report_id, len }
                    && report_id == 0 && len == src@.len())
            },
            self.device matches Device::Ble(_) ==> {
                &&& (r.0 matches IoAction::BleWriteCharacteristic {
                    service,
                    characteristic,
                    data,
                    with_response,
                } && service == SERVICE_UUID && characteristic == WRITE_READ_NOTIFY_UUID && data@
                    == src@ && with_response)
                &&& (r.1 matches IoAction::BleAwaitNotification { timeout_secs }
                    && timeout_secs == REQUEST_TIMEOUT_SECS)
            },
    {
        let send = self.write_action(src);
        let receive = match &self.device {
            Device::Usb(_) => IoAction::UsbGetInputReport { report_id: 0x00, len: src.len() },
            Device::Ble(_) => IoAction::BleAwaitNotification { timeout_secs: REQUEST_TIMEOUT_SECS },
        };
        (send, receive)
    }

    /// Resolves a request. A value that arrived — the input report, or
    /// the next notification on this peripheral's channel — is the
    /// response; correlation is positional, so the design assumes at most
    /// one outstanding request per peripheral at a time. Where no
    /// notification arrived within the bound the request fails with the
    /// timeout error, and the handle stays usable: it is not touched.
    pub fn request_complete(&self, received: Option<Vec<u8>>) -> (r: Result<Vec<u8>, Error>)
        requires
            self.device matches Device::Usb(_) ==> received is Some,
        ensures
            received matches Some(v) ==> (r matches Ok(w) && w == v),
            received is None ==> (r matches Err(e)
                && e matches Error::TimedOut(s) && s == REQUEST_TIMEOUT_SECS),
    {
        match received {
            Some(v) => Ok(v),
            None => Err(Error::TimedOut(REQUEST_TIMEOUT_SECS)),
        }
    }
}

/// A discovered device: identity, immutable metadata, and the transport
/// binding, populated together at construction.
#[derive(Debug, Clone)]
pub struct Peripheral {
    pub id: PeripheralIdentity,
    pub vid: u16,
    pub pid: u16,
    pub address: String,
    pub chip_manufacturer: ChipManufacturer,
    pub device_type: DeviceType,
    pub device_name: String,
    pub chip_type: ChipType,
    pub software_version: String,
    pub hardware_version: String,
    pub firmware_version: String,
    pub peripheral_device: PeripheralDevice,
}

/// Whether `p` is the handle that construction builds for the USB
/// descriptor `d`: every metadata field is pinned, and only the identity —
/// generated fresh, USB exposes no stable native identifier — is free.
pub open spec fn spec_is_usb_handle_of(p: Peripheral, d: UsbDeviceInfo) -> bool {
    &&& p.vid == d.vendor_id
    &&& p.pid == d.product_id
    &&& p.address@ == d.path@
    &&& p.chip_manufacturer == ChipManufacturer::JL
    &&& p.device_type == DeviceType::MulKeyboardTouchpad
    &&& p.device_name@ == "default"@
    &&& p.chip_type == ChipType::AC635N
    &&& p.software_version@ == "0.0.0"@
    &&& p.hardware_version@ == "0.0.0"@
    &&& p.firmware_version@ == "0.0.0"@
    &&& p.peripheral_device.device == Device::Usb(d)
}

/// Whether `p` is the handle that construction builds for the BLE
/// candidate and its device-information reads: identity derived from the
/// native connection identifier, vendor and product id parsed from PnP-ID,
/// the revision strings decoded as UTF-8, and the name taken from the
/// advertised properties.
pub open spec fn spec_is_ble_handle_of(
    p: Peripheral,
    candidate: BleCandidate,
    details: BleDeviceDetails,
) -> bool {
    &&& p.id.value == spec_ble_identity(candidate.device.native_id@)
    &&& p.vid == details.pnp@[2] * 256 + details.pnp@[1]
    &&& p.pid == details.pnp@[4] * 256 + details.pnp@[3]
    &&& p.address == candidate.device.address
    &&& p.chip_manufacturer == ChipManufacturer::PAR
    &&& p.device_type == DeviceType::MulKeyboardTouchpad
    &&& p.device_name@ == spec_ble_device_name(details.properties)
    &&& p.chip_type == ChipType::PAR2860
    &&& p.software_version@ == spec_utf8_or_empty(details.software_revision@)
    &&& p.hardware_version@ == spec_utf8_or_empty(details.hardware_revision@)
    &&& p.firmware_version@ == spec_utf8_or_empty(details.firmware_revision@)
    &&& p.peripheral_device.device == Device::Ble(candidate.device)
}

impl Peripheral {
    /// Builds the handle of a USB device from its static descriptor. No
    /// transport I/O is involved: the identifiers come straight from the
    /// descriptor, the remaining metadata takes the fixed values of the
    /// supported USB product line, and the identity is generated fresh —
    /// USB exposes no stable native hardware identifier to derive from.
    pub fn new_usb(device: UsbDeviceInfo) -> (r: Peripheral)
        ensures
            spec_is_usb_handle_of(r, device),
    {
        let address = device.path.clone();
        Peripheral {
            id: PeripheralIdentity { value: random_identity_bits() },
            vid: device.vendor_id,
            pid: device.product_id,
            address,
            chip_manufacturer: ChipManufacturer::JL,
            device_type: DeviceType::MulKeyboardTouchpad,
            device_name: "default".to_owned(),
            chip_type: ChipType::AC635N,
            software_version: "0.0.0".to_owned(),
            hardware_version: "0.0.0".to_owned(),
            firmware_version: "0.0.0".to_owned(),
            peripheral_device: PeripheralDevice { device: Device::Usb(device) },
        }
    }

    /// Builds the handle of a BLE peripheral. The candidate must expose
    /// both required characteristics — communication and
    /// device-identification — else it is unsupported and discarded; on
    /// success the identity is derived from the native connection
    /// identifier and the metadata is populated from the
    /// device-information reads — vendor and product id from PnP-ID, the
    /// three revision strings decoded as UTF-8, and the device name from
    /// the advertised properties.
    pub fn new_ble(candidate: BleCandidate, details: BleDeviceDetails) -> (r: Result<
        Peripheral,
        Error,
    >)
        requires
            spec_has_required_characteristics(candidate.characteristics@) ==> details.pnp@.len()
                >= 5,
        ensures
            r is Err <==> !spec_has_required_characteristics(candidate.characteristics@),
            r matches Err(e) ==> e matches Error::NonSupport,
            r matches Ok(p) ==> spec_is_ble_handle_of(p, candidate, details),
    {
        if let Err(e) = validate_ble_characteristics(&candidate.characteristics) {
            return Err(e);
        }
        let id = PeripheralIdentity::from_ble_native_id(&candidate.device.native_id);
        let (vid, pid) = parse_pnp_ids(&details.pnp);
        let name: String = match details.properties {
            Some(local_name) => match local_name {
                Some(n) => n,
                None => String::new(),
            },
            None => "default".to_owned(),
        };
        let address = candidate.device.address.clone();
        Ok(
            Peripheral {
                id,
                vid,
                pid,
                address,
                chip_manufacturer: ChipManufacturer::PAR,
                device_type: DeviceType::MulKeyboardTouchpad,
                device_name: name,
                chip_type: ChipType::PAR2860,
                software_version: utf8_or_empty(&details.software_revision),
                hardware_version: utf8_or_empty(&details.hardware_revision),
                firmware_version: utf8_or_empty(&details.firmware_revision),
                peripheral_device: PeripheralDevice { device: Device::Ble(candidate.device) },
            },
        )
    }

    /// An exact copy of this handle, identity included. Handles are cheap
    /// to duplicate and each copy is as usable as the original.
    pub fn duplicate(&self) -> (r: Self)
        ensures
            r == *self,
    {
        Peripheral {
            id: self.id,
            vid: self.vid,
            pid: self.pid,
            address: self.address.clone(),
            chip_manufacturer: self.chip_manufacturer,
            device_type: self.device_type,
            device_name: self.device_name.clone(),
            chip_type: self.chip_type,
            software_version: self.software_version.clone(),
            hardware_version: self.hardware_version.clone(),
            firmware_version: self.firmware_version.clone(),
            peripheral_device: self.peripheral_device.duplicate(),
        }
    }

    /// The device's identity.
    pub fn id(&self) -> (r: PeripheralIdentity)
        ensures
            r == self.id,
    {
        self.id
    }

    /// The device's address: the platform path for USB, the printed BLE
    /// address otherwise.
    pub fn address(&self) -> (r: String)
        ensures
            r == self.address,
    {
        self.address.clone()
    }

    /// Which transport the handle is bound to.
    pub fn conn_type(&self) -> (r: ConnectionType)
        ensures
            r == (match self.peripheral_device.device {
                Device::Usb(_) => ConnectionType::USB,
                Device::Ble(_) => ConnectionType::BLE,
            }),
    {
        match &self.peripheral_device.device {
            Device::Usb(_) => ConnectionType::USB,
            Device::Ble(_) => ConnectionType::BLE,
        }
    }

    /// The device's vendor identifier.
    pub fn vendor_id(&self) -> (r: u16)
        ensures
            r == self.vid,
    {
        self.vid
    }

    /// The device's product identifier.
    pub fn product_id(&self) -> (r: u16)
        ensures
            r == self.pid,
    {
        self.pid
    }

    /// The manufacturer of the device's chip.
    pub fn chip_manufacturer(&self) -> (r: ChipManufacturer)
        ensures
            r == self.chip_manufacturer,
    {
        self.chip_manufacturer
    }

    /// What kind of input device this is.
    pub fn device_type(&self) -> (r: DeviceType)
        ensures
            r == self.device_type,
    {
        self.device_type
    }

    /// The device's name.
    pub fn device_name(&self) -> (r: String)
        ensures
            r == self.device_name,
    {
        self.device_name.clone()
    }

    /// The chip the device is built on.
    pub fn chip_type(&self) -> (r: ChipType)
        ensures
            r == self.chip_type,
    {
        self.chip_type
    }

    /// The device's software version string.
    pub fn software_version(&self) -> (r: String)
        ensures
            r == self.software_version,
    {
        self.software_version.clone()
    }

    /// The device's hardware version string.
    pub fn hardware_version(&self) -> (r: String)
        ensures
            r == self.hardware_version,
    {
        self.hardware_version.clone()
    }

    /// The device's firmware version string.
    pub fn firmware_version(&self) -> (r: String)
        ensures
            r == self.firmware_version,
    {
        self.firmware_version.clone()
    }

    /// Plans a read of `len` bytes over this handle's transport; see
    /// [`PeripheralDevice::read_action`].
    pub fn read_action(&self, len: usize) -> (r: IoAction)
        ensures
            self.peripheral_device.device matches Device::Usb(_) ==> (r matches
                IoAction::UsbGetInputReport { report_id, len: l } && report_id == 0 && l == len),
            self.peripheral_device.device matches Device::Ble(_) ==> (r matches
                IoAction::BleReadCharacteristic { service, characteristic } && service
                == SERVICE_UUID && characteristic == WRITE_READ_NOTIFY_UUID),
    {
        self.peripheral_device.read_action(len)
    }

    /// Plans a write of `src` over this handle's transport; see
    /// [`PeripheralDevice::write_action`].
    pub fn write_action(&self, src: &Vec<u8>) -> (r: IoAction)
        ensures
            self.peripheral_device.device matches Device::Usb(_) ==> (r matches
                IoAction::UsbSetOutputReport { report_id, data } && report_id == 0 && data@
                == src@),
            self.peripheral_device.device matches Device::Ble(_) ==> (r matches
                IoAction::BleWriteCharacteristic { service, characteristic, data, with_response }
                && service == SERVICE_UUID && characteristic == WRITE_READ_NOTIFY_UUID && data@
                == src@ && with_response),
    {
        self.peripheral_device.write_action(src)
    }

    /// Plans a request carrying `src` over this handle's transport; see
    /// [`PeripheralDevice::request_actions`].
    pub fn request_actions(&self, src: &Vec<u8>) -> (r: (IoAction, IoAction))
        ensures
            self.peripheral_device.device matches Device::Usb(_) ==> {
                &&& (r.0 matches IoAction::UsbSetOutputReport { report_id, data }
                    && report_id == 0 && data@ == src@)
                &&& (r.1 matches IoAction::UsbGetInputReport { report_id, len }
                    && report_id == 0 && len == src@.len())
            },
            self.peripheral_device.device matches Device::Ble(_) ==> {
                &&& (r.0 matches IoAction::BleWriteCharacteristic {
                    service,
                    characteristic,
                    data,
                    with_response,
                } && service == SERVICE_UUID && characteristic == WRITE_READ_NOTIFY_UUID && data@
                    == src@ && with_response)
                &&& (r.1 matches IoAction::BleAwaitNotification { timeout_secs }
                    && timeout_secs == REQUEST_TIMEOUT_SECS)
            },
    {
        self.peripheral_device.request_actions(src)
    }

    /// Resolves a request over this handle's transport; see
    /// [`PeripheralDevice::request_complete`].
    pub fn request_complete(&self, received: Option<Vec<u8>>) -> (r: Result<Vec<u8>, Error>)
        requires
            self.peripheral_device.device matches Device::Usb(_) ==> received is Some,
        ensures
            received matches Some(v) ==> (r matches Ok(w) && w == v),
            received is None ==> (r matches Err(e)
                && e matches Error::TimedOut(s) && s == REQUEST_TIMEOUT_SECS),
    {
        self.peripheral_device.request_complete(received)
    }

    /// Connecting is implicit for both transports: a discovered handle is
    /// already usable, so this always succeeds and changes nothing.
    pub fn connect(&self, _u: PeripheralIdentity) -> (r: Result<(), Error>)
        ensures
            r is Ok,
    {
        Ok(())
    }

    /// Dropping the handle releases the transport; there is nothing to
    /// tear down beyond that, so this always succeeds and changes nothing.
    pub fn disconnect(&mut self) -> (r: Result<(), Error>)
        ensures
            r is Ok,
            *final(self) == *old(self),
    {
        Ok(())
    }
}

} // verus!
