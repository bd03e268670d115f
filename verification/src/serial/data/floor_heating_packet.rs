//! Floor heating of one room: power, target and current temperature.

use vstd::prelude::*;

use crate::serial::data::{hyundai_request, two_bytes, two_zero_bytes, Data, DataParseError};
use crate::serial::packet::{Manufacturer, SerialPacket};

verus! {

/// State of the heating of one room, temperatures in degrees Celsius.
#[derive(Debug, Clone, Copy, PartialEq, Eq, Structural)]
pub struct FloorHeatingDataPacket {
    pub power: Option<bool>,
    pub target_temp: Option<u32>,
    pub current_temp: Option<u32>,
}

/// The byte that switches the heating on or off.
pub open spec fn heating_power_code(status: bool) -> u8 {
    if status {
        1
    } else {
        4
    }
}

impl Data for FloorHeatingDataPacket {
    open spec fn parsed(manufacturer: Manufacturer, buf: Seq<u8>) -> Result<Self, DataParseError> {
        if buf.len() < 3 {
            Err(DataParseError::LengthTooSmall)
        } else {
            Ok(
                FloorHeatingDataPacket {
                    power: Some(buf[0] == 0x01),
                    target_temp: Some(buf[2] as u32),
                    current_temp: Some(buf[1] as u32),
                },
            )
        }
    }

    open spec fn request(manufacturer: Manufacturer) -> Option<Seq<u8>> {
        Some(hyundai_request())
    }

    fn parse<T: SerialPacket>(buf: &[u8]) -> (r: Result<Self, DataParseError>) {
        match T::manufacturer() {
            Manufacturer::HyundaiHT => {
                if buf.len() < 3 {
                    return Err(DataParseError::LengthTooSmall);
                }
                Ok(
                    FloorHeatingDataPacket {
                        power: Some(buf[0] == 0x01),
                        target_temp: Some(buf[2] as u32),
                        current_temp: Some(buf[1] as u32),
                    },
                )
            },
        }
    }

    fn create_request<T: SerialPacket>() -> (r: Option<Vec<u8>>) {
        match T::manufacturer() {
            Manufacturer::HyundaiHT => Some(two_zero_bytes()),
        }
    }
}

impl FloorHeatingDataPacket {
    /// The data bytes that switch the heating on (`true`) or off.
    pub fn create_power_modify<T: SerialPacket>(status: bool) -> (r: Option<Vec<u8>>)
        ensures
            r is Some,
            r->Some_0@ == seq![heating_power_code(status), 0u8],
    {
        match T::manufacturer() {
            Manufacturer::HyundaiHT => Some(
                two_bytes(
                    if status {
                        1
                    } else {
                        4
                    },
                    0x00,
                ),
            ),
        }
    }

    /// The data bytes that set the target temperature. Only the low eight
    /// bits of `temperature` travel.
    pub fn create_temp_modify<T: SerialPacket>(temperature: u32) -> (r: Option<Vec<u8>>)
        ensures
            r is Some,
            r->Some_0@ == seq![(temperature % 256) as u8, 0u8],
    {
        match T::manufacturer() {
            Manufacturer::HyundaiHT => Some(two_bytes((temperature % 256) as u8, 0x00)),
        }
    }
}

} // verus!
