//! Plain-value model of the USB backend's vocabulary: the error codes a
//! transfer or session call can report, and the identifying pair a device
//! presents during enumeration.

use vstd::prelude::*;

verus! {

/// Error codes of the USB backend, as a plain enum of the library's own.
/// `Success` is carried as an error code by the backend on some calls and is
/// treated as a success by the session protocol's cleanup steps.
#[derive(Clone, Copy, Debug, PartialEq, Eq)]
pub enum UsbError {
    Success,
    Io,
    InvalidParam,
    Access,
    NoDevice,
    NotFound,
    Busy,
    Timeout,
    Overflow,
    Pipe,
    Interrupted,
    NoMem,
    NotSupported,
    Other,
}

/// The vendor/product identifier pair a device reports during enumeration.
#[derive(Clone, Copy, Debug, PartialEq, Eq)]
pub struct DeviceId {
    pub vendor: u16,
    pub product: u16,
}

} // verus!
