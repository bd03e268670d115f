//! The energy meter: running totals of electricity, water and gas.
//!
//! Each total travels as two bytes whose four hexadecimal digits are read
//! as a decimal number: the bytes `0x01 0x23` stand for 123.

use vstd::prelude::*;

use crate::serial::data::{hyundai_request, two_zero_bytes, Data, DataParseError};
use crate::serial::packet::{Manufacturer, SerialPacket};
use crate::text::{all_digits, digits_value, is_digit, parse_bounded, parse_unsigned_u64};

verus! {

/// Offset of the electricity total in the data bytes.
pub const ELECTRIC_OFFSET: usize = 3;

/// Offset of the gas total in the data bytes.
pub const GAS_OFFSET: usize = 11;

/// Offset of the water total in the data bytes.
pub const WATER_OFFSET: usize = 15;

/// The shortest data that holds all three totals.
pub const ENERGY_DATA_LEN: usize = 17;

/// Totals of the energy meter, in the meter's units.
#[derive(Debug, Clone, Copy, PartialEq, Eq, Structural)]
pub struct RealtimeEnergyDataPacket {
    pub electric: Option<u32>,
    pub water: Option<u32>,
    pub gas: Option<u32>,
}

/// The lower-case hexadecimal digit for a value below sixteen.
pub open spec fn hex_digit(n: u8) -> u8
    recommends
        n < 16,
{
    if n < 10 {
        (0x30 + n) as u8
    } else {
        (0x61 + n - 10) as u8
    }
}

/// The four lower-case hexadecimal digits of two bytes.
pub open spec fn hex_text(high: u8, low: u8) -> Seq<u8> {
    seq![hex_digit(high / 16), hex_digit(high % 16), hex_digit(low / 16), hex_digit(low % 16)]
}

/// The total that two bytes stand for: their hexadecimal digits read as a
/// decimal number, `0` if that is no number.
pub open spec fn usage(high: u8, low: u8) -> u32 {
    match parse_unsigned_u64(hex_text(high, low), u32::MAX as u64) {
        Some(v) => v as u32,
        None => 0,
    }
}

/// Two bytes are binary-coded decimal: their four hexadecimal digits read
/// as the decimal number they spell, and as `0` if one of them is a letter.
pub proof fn lemma_usage_is_bcd(high: u8, low: u8)
    ensures
        usage(high, low) == if high / 16 < 10 && high % 16 < 10 && low / 16 < 10 && low % 16 < 10 {
            (high / 16) * 1000 + (high % 16) * 100 + (low / 16) * 10 + low % 16
        } else {
            0
        },
{
    let t = hex_text(high, low);
    let t3 = t.drop_last();
    let t2 = t3.drop_last();
    let t1 = t2.drop_last();
    assert(t1.drop_last().len() == 0);
    assert(digits_value(t1.drop_last()) == 0);
    assert(digits_value(t1) == t[0] - 0x30);
    assert(digits_value(t2) == digits_value(t1) * 10 + (t[1] - 0x30));
    assert(digits_value(t3) == digits_value(t2) * 10 + (t[2] - 0x30));
    assert(digits_value(t) == digits_value(t3) * 10 + (t[3] - 0x30));
    if high / 16 < 10 && high % 16 < 10 && low / 16 < 10 && low % 16 < 10 {
        assert(all_digits(t));
    } else {
        assert(!is_digit(t[0]) || !is_digit(t[1]) || !is_digit(t[2]) || !is_digit(t[3]));
    }
}

/// The lower-case hexadecimal digit for a value below sixteen.
pub fn hex_digit_of(n: u8) -> (digit: u8)
    requires
        n < 16,
    ensures
        digit == hex_digit(n),
{
    if n < 10 {
        0x30 + n
    } else {
        0x61 + (n - 10)
    }
}

/// The four hexadecimal digits of the two bytes of `buf` at `offset`.
pub fn hex_usage_to_dec(buf: &[u8], offset: usize) -> (text: Vec<u8>)
    requires
        offset + 1 < buf@.len(),
    ensures
        text@ == hex_text(buf@[offset as int], buf@[offset + 1]),
{
    let high = buf[offset];
    let low = buf[offset + 1];
    let mut text: Vec<u8> = Vec::new();
    text.push(hex_digit_of(high / 16));
    text.push(hex_digit_of(high % 16));
    text.push(hex_digit_of(low / 16));
    text.push(hex_digit_of(low % 16));
    assert(text@ =~= hex_text(high, low));
    text
}

/// The total that the two bytes of `buf` at `offset` stand for.
pub fn usage_at(buf: &[u8], offset: usize) -> (total: u32)
    requires
        offset + 1 < buf@.len(),
    ensures
        total == usage(buf@[offset as int], buf@[offset + 1]),
{
    let text = hex_usage_to_dec(buf, offset);
    match parse_bounded(text.as_slice(), 0xFFFF_FFFF) {
        Some(v) => v as u32,
        None => 0,
    }
}

impl Data for RealtimeEnergyDataPacket {
    open spec fn parsed(manufacturer: Manufacturer, buf: Seq<u8>) -> Result<Self, DataParseError> {
        if buf.len() < ENERGY_DATA_LEN {
            Err(DataParseError::LengthTooSmall)
        } else {
            Ok(
                RealtimeEnergyDataPacket {
                    electric: Some(usage(buf[3], buf[4])),
                    water: Some(usage(buf[15], buf[16])),
                    gas: Some(usage(buf[11], buf[12])),
                },
            )
        }
    }

    open spec fn request(manufacturer: Manufacturer) -> Option<Seq<u8>> {
        Some(hyundai_request())
    }

    fn parse<T: SerialPacket>(buf: &[u8]) -> (r: Result<Self, DataParseError>) {
        match T::manufacturer() {
            Manufacturer::HyundaiHT => {
                if buf.len() < ENERGY_DATA_LEN {
                    return Err(DataParseError::LengthTooSmall);
                }
                Ok(
                    RealtimeEnergyDataPacket {
                        electric: Some(usage_at(buf, ELECTRIC_OFFSET)),
                        water: Some(usage_at(buf, WATER_OFFSET)),
                        gas: Some(usage_at(buf, GAS_OFFSET)),
                    },
                )
            },
        }
    }

    fn create_request<T: SerialPacket>() -> (r: Option<Vec<u8>>) {
        match T::manufacturer() {
            Manufacturer::HyundaiHT => Some(two_zero_bytes()),
        }
    }
}

} // verus!
