//! Control library for a USB-attached liquid cooler: locating the device by
//! vendor and product identifiers, building the fixed-format speed-control
//! payloads, decoding the telemetry frame, and the session protocol that a
//! USB backend runs step by step.

pub mod cam;
pub mod locate;
pub mod protocol;
pub mod session;
pub mod usb;

pub use cam::Kraken;
pub use protocol::Info;
