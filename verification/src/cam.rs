//! The cooler itself: a located device and the operations it offers. Each
//! operation is self-contained — it starts a fresh session that opens the
//! device, does its work and cleans up, with no claim persisting from one
//! call to the next.

use vstd::prelude::*;
use crate::locate::{DiscoveryError, find, first_match, no_match};
use crate::protocol::{Channel, INTERFACE, PRODUCT_ID, VENDOR_ID};
use crate::session::{ReadSession, ReadState, WriteSession, write_start_logs, write_start_state};
use crate::usb::{DeviceId, UsbError};

verus! {

/// A located cooler: its position in the backend's enumeration order and
/// the control interface its operations claim.
#[derive(Clone, Copy, Debug, PartialEq, Eq)]
pub struct Kraken {
    /// Position of the device in the enumeration the locator walked.
    pub device_index: usize,
    /// Index of the control interface, always 0 for this device.
    pub iface: u8,
}

impl Kraken {
    /// Locates the cooler in a freshly enumerated device list: the first
    /// device presenting vendor 0x1e71 and product 0x170e. A failure to
    /// obtain the list is passed through; a list without the cooler is
    /// `NotFound`.
    pub fn from(listing: &Result<Vec<DeviceId>, UsbError>) -> (r: Result<Kraken, DiscoveryError>)
        ensures
            match *listing {
                Ok(devices) => match r {
                    Ok(k) => k.iface == INTERFACE && first_match(
                        devices@,
                        VENDOR_ID,
                        PRODUCT_ID,
                        k.device_index as int,
                    ),
                    Err(err) => err == DiscoveryError::NotFound && no_match(
                        devices@,
                        VENDOR_ID,
                        PRODUCT_ID,
                    ),
                },
                Err(er) => r == Err::<Kraken, DiscoveryError>(DiscoveryError::Backend(er)),
            },
    {
        match find(listing, VENDOR_ID, PRODUCT_ID) {
            Ok(i) => Ok(Kraken { device_index: i, iface: INTERFACE }),
            Err(err) => Err(err),
        }
    }

    /// Starts the session that sets the fan speed to `speed` percent. A
    /// speed above 100 yields a session that is already finished with
    /// success and a warning, and prescribes no device interaction.
    pub fn set_fan(&self, speed: u8) -> (s: WriteSession)
        ensures
            s.channel == Channel::Fan,
            s.percent == speed,
            s.state == write_start_state(speed),
            s.logs@ == write_start_logs(speed),
    {
        WriteSession::new(Channel::Fan, speed)
    }

    /// Starts the session that sets the pump speed to `speed` percent. A
    /// speed above 100 yields a session that is already finished with
    /// success and a warning, and prescribes no device interaction.
    pub fn set_pump(&self, speed: u8) -> (s: WriteSession)
        ensures
            s.channel == Channel::Pump,
            s.percent == speed,
            s.state == write_start_state(speed),
            s.logs@ == write_start_logs(speed),
    {
        WriteSession::new(Channel::Pump, speed)
    }

    /// Starts the session that reads the telemetry frame.
    pub fn status(&self) -> (s: ReadSession)
        ensures
            s.state == ReadState::AwaitOpen,
            s.logs@ == Seq::<crate::session::LogEvent>::empty(),
    {
        ReadSession::new()
    }
}

} // verus!
