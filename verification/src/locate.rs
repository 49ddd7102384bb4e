//! Device discovery over a snapshot of the host's USB device list. The
//! backend enumerates the bus and hands the identifier pairs over in
//! enumeration order; discovery picks the first device matching a given
//! vendor and product identifier.

use vstd::prelude::*;
use crate::usb::{DeviceId, UsbError};

verus! {

/// Why discovery found no device to work with.
#[derive(Clone, Copy, Debug, PartialEq, Eq)]
pub enum DiscoveryError {
    /// The list held no device with the wanted identifiers.
    NotFound,
    /// The device list itself could not be obtained; the backend's error.
    Backend(UsbError),
}

/// Whether a device presents the wanted identifier pair.
pub open spec fn id_matches(d: DeviceId, vendor: u16, product: u16) -> bool {
    d.vendor == vendor && d.product == product
}

/// Whether `i` is the position of the first device in `devices` that
/// presents the wanted identifier pair.
pub open spec fn first_match(devices: Seq<DeviceId>, vendor: u16, product: u16, i: int) -> bool {
    &&& 0 <= i < devices.len()
    &&& id_matches(devices[i], vendor, product)
    &&& forall|j: int| 0 <= j < i ==> !id_matches(devices[j], vendor, product)
}

/// Whether no device in `devices` presents the wanted identifier pair.
pub open spec fn no_match(devices: Seq<DeviceId>, vendor: u16, product: u16) -> bool {
    forall|j: int| 0 <= j < devices.len() ==> !id_matches(devices[j], vendor, product)
}

/// Walks the device list once, in enumeration order, and returns the
/// position of the first device whose descriptor matches both identifiers.
/// A failure to obtain the list is passed through; a list without a match
/// is `NotFound`.
pub fn find(listing: &Result<Vec<DeviceId>, UsbError>, vendor: u16, product: u16) -> (r: Result<
    usize,
    DiscoveryError,
>)
    ensures
        match *listing {
            Ok(devices) => match r {
                Ok(i) => first_match(devices@, vendor, product, i as int),
                Err(err) => err == DiscoveryError::NotFound && no_match(
                    devices@,
                    vendor,
                    product,
                ),
            },
            Err(er) => r == Err::<usize, DiscoveryError>(DiscoveryError::Backend(er)),
        },
{
    match listing {
        Err(er) => Err(DiscoveryError::Backend(*er)),
        Ok(devices) => {
            let mut i: usize = 0;
            while i < devices.len()
                invariant
                    i <= devices@.len(),
                    *listing == Ok::<Vec<DeviceId>, UsbError>(*devices),
                    forall|j: int| 0 <= j < i ==> !id_matches(devices@[j], vendor, product),
                decreases devices@.len() - i,
            {
                if devices[i].vendor == vendor && devices[i].product == product {
                    return Ok(i);
                }
                i = i + 1;
            }
            Err(DiscoveryError::NotFound)
        },
    }
}

} // verus!
