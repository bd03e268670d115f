//! On/off devices: lights and the gas valve.

use vstd::prelude::*;

use crate::serial::data::{hyundai_request, two_bytes, two_zero_bytes, Data, DataParseError};
use crate::serial::packet::{Manufacturer, SerialPacket};

verus! {

/// State of a switch as the bus reports it.
#[derive(Debug, Clone, Copy, PartialEq, Eq, Structural)]
pub struct BinarySwitchDataPacket {
    pub status: Option<bool>,
}

/// The first data byte says "on": `0x01` for a light, `0x04` for the gas
/// valve.
pub open spec fn switch_is_on(first: u8) -> bool {
    first == 0x01 || first == 0x04
}

/// The byte that switches a light on or off.
pub open spec fn light_code(value: bool) -> u8 {
    if value {
        0x01
    } else {
        0x02
    }
}

/// The byte that opens or closes the gas valve.
pub open spec fn gas_valve_code(value: bool) -> u8 {
    if value {
        0x04
    } else {
        0x03
    }
}

impl Data for BinarySwitchDataPacket {
    open spec fn parsed(manufacturer: Manufacturer, buf: Seq<u8>) -> Result<Self, DataParseError> {
        if buf.len() < 1 {
            Err(DataParseError::LengthTooSmall)
        } else {
            Ok(BinarySwitchDataPacket { status: Some(switch_is_on(buf[0])) })
        }
    }

    open spec fn request(manufacturer: Manufacturer) -> Option<Seq<u8>> {
        Some(hyundai_request())
    }

    fn parse<T: SerialPacket>(buf: &[u8]) -> (r: Result<Self, DataParseError>) {
        match T::manufacturer() {
            Manufacturer::HyundaiHT => {
                if buf.len() < 1 {
                    return Err(DataParseError::LengthTooSmall);
                }
                Ok(BinarySwitchDataPacket { status: Some(buf[0] == 0x01 || buf[0] == 0x04) })
            },
        }
    }

    fn create_request<T: SerialPacket>() -> (r: Option<Vec<u8>>) {
        match T::manufacturer() {
            Manufacturer::HyundaiHT => Some(two_zero_bytes()),
        }
    }
}

impl BinarySwitchDataPacket {
    /// The data bytes that switch a light on (`true`) or off.
    pub fn create_modify<T: SerialPacket>(value: bool) -> (r: Option<Vec<u8>>)
        ensures
            r is Some,
            r->Some_0@ == seq![light_code(value), 0u8],
    {
        match T::manufacturer() {
            Manufacturer::HyundaiHT => Some(
                two_bytes(
                    if value {
                        0x01
                    } else {
                        0x02
                    },
                    0x00,
                ),
            ),
        }
    }

    /// The data bytes that open (`true`) or close the gas valve.
    pub fn create_gas_valve_modify<T: SerialPacket>(value: bool) -> (r: Option<Vec<u8>>)
        ensures
            r is Some,
            r->Some_0@ == seq![gas_valve_code(value), 0u8],
    {
        match T::manufacturer() {
            Manufacturer::HyundaiHT => Some(
                two_bytes(
                    if value {
                        0x04
                    } else {
                        0x03
                    },
                    0x00,
                ),
            ),
        }
    }
}

} // verus!
