//! Error taxonomy, transport and device classifications, and the normalized
//! event type that the manager broadcasts.

use vstd::prelude::*;
use crate::peripheral::Peripheral;
use crate::peripheral::PeripheralIdentity;

verus! {

/// The error type returned by the fallible operations of this crate.
#[derive(Debug, Clone)]
pub enum Error {
    /// A BLE candidate does not expose the required characteristics.
    NonSupport,
    /// Permission to reach the device was denied.
    PermissionDenied,
    /// A lookup named an identity that no known device carries.
    DeviceNotFound,
    /// The device is not connected.
    NotConnected,
    /// A request saw no response within the bound; the payload is the
    /// number of seconds reported to the caller.
    TimedOut(u64),
    /// A listener was requested from a manager whose broadcast was disabled.
    BroadcastDisabled,
    /// A native adapter could not be created or started.
    AdapterInit,
    /// A snapshot query was made while the adapter is not initialized.
    DeviceQuery,
    /// A native read or write failed.
    TransportIo,
    /// Any other failure, described in words.
    Other(String),
}

/// The transport over which a peripheral is reached.
#[derive(Debug, Clone, Copy, PartialEq, Eq, Structural)]
pub enum ConnectionType {
    USB,
    BLE,
}

impl ConnectionType {
    /// Maps a numeric tag back to a transport; unknown tags fall back to USB.
    pub fn from_u8(v: u8) -> (r: Self)
        ensures
            r == (if v == 1 { ConnectionType::BLE } else { ConnectionType::USB }),
    {
        match v {
            0 => Self::USB,
            1 => Self::BLE,
            _ => Self::USB,
        }
    }

    /// The numeric tag of this transport.
    pub fn num(&self) -> (r: u8)
        ensures
            r == (match *self {
                ConnectionType::USB => 0u8,
                ConnectionType::BLE => 1u8,
            }),
    {
        match *self {
            ConnectionType::USB => 0,
            ConnectionType::BLE => 1,
        }
    }
}

impl From<u8> for ConnectionType {
    /// The inverse of [`ConnectionType::num`], with unknown tags mapped to
    /// USB.
    fn from(item: u8) -> (r: Self) {
        Self::from_u8(item)
    }
}

impl vstd::std_specs::convert::FromSpecImpl<u8> for ConnectionType {
    open spec fn obeys_from_spec() -> bool {
        true
    }

    open spec fn from_spec(item: u8) -> Self {
        if item == 1 {
            ConnectionType::BLE
        } else {
            ConnectionType::USB
        }
    }
}

/// What kind of input device a peripheral is.
#[derive(Debug, Clone, Copy, PartialEq, Eq, Structural)]
pub enum DeviceType {
    Keyboard,
    Mouse,
    Touchpad,
    /// A combined keyboard and touchpad.
    MulKeyboardTouchpad,
    Other,
}

/// The numeric representation of each device type, as the wire protocol
/// reports it.
pub open spec fn spec_device_type_repr(t: DeviceType) -> int {
    match t {
        DeviceType::Keyboard => 1,
        DeviceType::Mouse => 2,
        DeviceType::Touchpad => 3,
        DeviceType::MulKeyboardTouchpad => 4,
        DeviceType::Other => 100,
    }
}

/// Maps a numeric device-type representation to its device type; a number
/// that represents no known type falls back to the default.
pub fn device_type_from_repr(d: u16) -> (r: DeviceType)
    ensures
        spec_device_type_repr(r) == d || (r == DeviceType::Other
            && d != 1 && d != 2 && d != 3 && d != 4),
{
    match d {
        1 => DeviceType::Keyboard,
        2 => DeviceType::Mouse,
        3 => DeviceType::Touchpad,
        4 => DeviceType::MulKeyboardTouchpad,
        _ => DeviceType::default(),
    }
}

impl Default for DeviceType {
    fn default() -> (r: Self)
        ensures
            r == DeviceType::Other,
    {
        DeviceType::Other
    }
}

/// The concrete chip a device is built on.
#[derive(Debug, Clone, Copy, PartialEq, Eq, Structural)]
pub enum ChipType {
    AC632N,
    AC635N,
    PAR2860,
}

impl Default for ChipType {
    fn default() -> (r: Self)
        ensures
            r == ChipType::PAR2860,
    {
        Self::PAR2860
    }
}

/// The manufacturer of a device's chip.
#[derive(Debug, Clone, Copy, PartialEq, Eq, Structural)]
pub enum ChipManufacturer {
    JL,
    PAR,
}

impl Default for ChipManufacturer {
    fn default() -> (r: Self)
        ensures
            r == ChipManufacturer::PAR,
    {
        Self::PAR
    }
}

impl ChipManufacturer {
    /// Maps a numeric tag back to a manufacturer; unknown tags fall back to
    /// PAR.
    pub fn from_u8(v: u16) -> (r: Self)
        ensures
            r == (if v == 0 { ChipManufacturer::JL } else { ChipManufacturer::PAR }),
    {
        match v {
            0 => Self::JL,
            1 => Self::PAR,
            _ => Self::PAR,
        }
    }

    /// The numeric tag of this manufacturer.
    pub fn num(&self) -> (r: u16)
        ensures
            r == (match *self {
                ChipManufacturer::JL => 0u16,
                ChipManufacturer::PAR => 1u16,
            }),
    {
        match *self {
            Self::JL => 0,
            Self::PAR => 1,
        }
    }
}

/// One normalized entry of the manager's event feed, whatever transport it
/// came from.
#[derive(Debug, Clone)]
pub enum CoreEvent {
    /// A device passed the filter and its handle was fully constructed.
    DeviceAdd(Peripheral),
    /// The device carrying this identity went away.
    DeviceRemove(PeripheralIdentity),
}

} // verus!
