//! The payloads that the devices on the bus carry inside a frame.

use vstd::prelude::*;

use crate::serial::packet::{Manufacturer, SerialPacket};

pub mod binary_switch_packet;
pub mod floor_heating_packet;
pub mod realtime_energy_packet;
pub mod ventilator_packet;



verus! {

/// Why the payload of a frame cannot be read.
#[derive(Debug, Clone, Copy, PartialEq, Eq, Structural)]
pub enum DataParseError {
    LengthTooSmall,
    Unsupported,
}

/// The payload that asks a device of the Hyundai HT bus for its state.
pub open spec fn hyundai_request() -> Seq<u8> {
    seq![0u8, 0u8]
}

/// A payload of one kind of device, read from and written to the data bytes
/// of a frame in the dialect of the packet type `T`.
pub trait Data: Sized {
    /// What the data bytes `buf` of a frame hold, in the given dialect.
    spec fn parsed(manufacturer: Manufacturer, buf: Seq<u8>) -> Result<Self, DataParseError>;

    /// The data bytes of a request for the device's state, in the given
    /// dialect.
    spec fn request(manufacturer: Manufacturer) -> Option<Seq<u8>>;

    fn parse<T: SerialPacket>(buf: &[u8]) -> (r: Result<Self, DataParseError>)
        ensures
            r == Self::parsed(T::spec_manufacturer(), buf@),
    ;

    fn create_request<T: SerialPacket>() -> (r: Option<Vec<u8>>)
        ensures
            r is Some <==> Self::request(T::spec_manufacturer()) is Some,
            r is Some ==> r->Some_0@ == Self::request(T::spec_manufacturer())->Some_0,
    ;
}

/// Two zero bytes: the request payload of the Hyundai HT bus.
pub fn two_zero_bytes() -> (v: Vec<u8>)
    ensures
        v@ == hyundai_request(),
{
    let mut v: Vec<u8> = Vec::new();
    v.push(0);
    v.push(0);
    assert(v@ =~= hyundai_request());
    v
}

/// The two bytes `first`, `second`.
pub fn two_bytes(first: u8, second: u8) -> (v: Vec<u8>)
    ensures
        v@ == seq![first, second],
{
    let mut v: Vec<u8> = Vec::new();
    v.push(first);
    v.push(second);
    assert(v@ =~= seq![first, second]);
    v
}

} // verus!
