//! The fixed wire protocol of the cooler: the identifiers it enumerates
//! under, the 24-byte command payload that sets a fan or pump speed, and the
//! 17-byte telemetry frame it answers status reads with.

use vstd::prelude::*;

verus! {

/// Vendor identifier the cooler enumerates under.
pub const VENDOR_ID: u16 = 0x1e71;
/// Product identifier the cooler enumerates under.
pub const PRODUCT_ID: u16 = 0x170e;
/// Index of the control interface every operation claims.
pub const INTERFACE: u8 = 0;
/// Outbound bulk endpoint the command payload is written to.
pub const WRITE_ENDPOINT: u8 = 1;
/// Inbound bulk endpoint the telemetry frame is read from.
pub const READ_ENDPOINT: u8 = 0x81;
/// Timeout of each bulk transfer, in seconds.
pub const TRANSFER_TIMEOUT_SECS: u64 = 10;
/// Length of the command payload.
pub const PAYLOAD_LEN: usize = 24;
/// Length of the telemetry frame.
pub const STATUS_LEN: usize = 17;

/// Which of the two speed-controlled parts a command addresses. The channel
/// selects the sub-command byte of the payload.
#[derive(Clone, Copy, Debug, PartialEq, Eq)]
pub enum Channel {
    Fan,
    Pump,
}

/// Sub-command selector byte: 0x00 addresses the fan, 0x40 the pump.
pub open spec fn sub_command(channel: Channel) -> u8 {
    match channel {
        Channel::Fan => 0x00,
        Channel::Pump => 0x40,
    }
}

/// Byte `i` of the command payload: 0x02 (report type), 0x4d (command
/// class), the sub-command selector, a zero, the speed percentage, then zero
/// padding up to 24 bytes.
pub open spec fn payload_byte(channel: Channel, percent: u8, i: int) -> u8 {
    if i == 0 {
        0x02
    } else if i == 1 {
        0x4d
    } else if i == 2 {
        sub_command(channel)
    } else if i == 4 {
        percent
    } else {
        0x00
    }
}

/// The whole 24-byte command payload for a channel and a speed percentage.
pub open spec fn payload_spec(channel: Channel, percent: u8) -> Seq<u8> {
    Seq::new(PAYLOAD_LEN as nat, |i: int| payload_byte(channel, percent, i))
}

/// Builds the 24-byte command payload that sets `channel` to `percent`.
pub fn payload(channel: Channel, percent: u8) -> (p: Vec<u8>)
    requires
        percent <= 100,
    ensures
        p@ == payload_spec(channel, percent),
{
    let sub: u8 = match channel {
        Channel::Fan => 0x00,
        Channel::Pump => 0x40,
    };
    let mut p: Vec<u8> = Vec::new();
    p.push(0x02);
    p.push(0x4d);
    p.push(sub);
    p.push(0x00);
    p.push(percent);
    while p.len() < 24
        invariant
            5 <= p@.len() <= 24,
            forall|i: int| 0 <= i < p@.len() ==> p@[i] == payload_byte(channel, percent, i),
        decreases 24 - p@.len(),
    {
        p.push(0x00);
    }
    proof {
        assert(p@ =~= payload_spec(channel, percent));
    }
    p
}

/// One decoded telemetry frame. The liquid temperature is carried as its
/// integral part in degrees Celsius and its fractional part in tenths of a
/// degree; the two speeds are in revolutions per minute.
#[derive(Clone, Copy, Debug, PartialEq, Eq)]
pub struct Info {
    pub liquid_temp_deg: u8,
    pub liquid_temp_tenths: u8,
    pub fan_speed: u16,
    pub pump_speed: u16,
}

/// What a 17-byte telemetry frame decodes to: byte 1 is the integral part of
/// the liquid temperature, byte 2 its tenths, bytes 3-4 the fan speed
/// big-endian, bytes 5-6 the pump speed big-endian.
pub open spec fn decode_spec(frame: Seq<u8>) -> Info {
    Info {
        liquid_temp_deg: frame[1],
        liquid_temp_tenths: frame[2],
        fan_speed: (frame[3] * 256 + frame[4]) as u16,
        pump_speed: (frame[5] * 256 + frame[6]) as u16,
    }
}

impl Info {
    /// Decodes a telemetry frame. The decoding is a pure function of the 17
    /// bytes handed in, whether or not the read that filled them succeeded.
    pub fn from(frame: &Vec<u8>) -> (info: Info)
        requires
            frame@.len() == STATUS_LEN,
        ensures
            info == decode_spec(frame@),
    {
        Info {
            liquid_temp_deg: frame[1],
            liquid_temp_tenths: frame[2],
            fan_speed: (frame[3] as u16) * 256 + (frame[4] as u16),
            pump_speed: (frame[5] as u16) * 256 + (frame[6] as u16),
        }
    }
}

} // verus!
