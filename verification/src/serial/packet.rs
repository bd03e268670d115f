//! What every wall-pad dialect offers: a frame type that can be written to
//! and read from bytes, and the vocabulary shared by all dialects.

use vstd::prelude::*;

use crate::text::{bytes_of, is_word, lowered};

pub mod hyundai;

verus! {

/// The three kinds of frame that travel on the bus.
#[derive(Debug, Clone, Copy, PartialEq, Eq, Structural)]
pub enum Command {
    Request,
    Modify,
    Response,
}

/// Why a byte sequence is not a frame, in the order in which the checks run.
#[derive(Debug, Clone, Copy, PartialEq, Eq, Structural)]
pub enum PacketParseError {
    BufferLengthTooSmall,
    SizeMismatch,
    ChecksumMismatch,
    UnsupportedCommand,
}

/// The supported wall-pad dialects.
#[derive(Debug, Clone, Copy, PartialEq, Eq, Structural)]
pub enum Manufacturer {
    HyundaiHT,
}

/// A framed packet of one dialect, with its codec. The contracts speak of
/// packets by their views.
pub trait SerialPacket: Sized + View {
    /// The packet can be written: its payload fits the length field.
    spec fn encodable(packet: Self::V) -> bool;

    /// The bytes of the packet on the wire.
    spec fn wire(packet: Self::V) -> Seq<u8>;

    /// The first check that `buf` fails, or `None` if `buf` is a frame.
    spec fn parse_error(buf: Seq<u8>) -> Option<PacketParseError>;

    /// The packet that the frame `buf` holds.
    spec fn parsed(buf: Seq<u8>) -> Self::V;

    /// The payload carried by the packet.
    spec fn payload(packet: Self::V) -> Seq<u8>;

    /// The dialect of this packet type.
    spec fn spec_manufacturer() -> Manufacturer;

    /// The kind of the packet.
    spec fn command_of(packet: Self::V) -> Command;

    /// `received` acknowledges `sent`, so that `sent` need not be sent again.
    spec fn acknowledges(sent: Self::V, received: Self::V) -> bool;

    /// The total length that the header in `buf` declares, once `buf` holds it.
    spec fn declared_length(buf: Seq<u8>) -> Option<usize>;

    /// The bytes that open every frame.
    spec fn spec_prefix() -> Seq<u8>;

    /// The bytes that close every frame.
    spec fn spec_suffix() -> Seq<u8>;

    /// The line speed of the bus of this dialect.
    spec fn spec_baud_rate() -> u32;

    fn to_vec(&self) -> (v: Vec<u8>)
        requires
            Self::encodable(self@),
        ensures
            v@ == Self::wire(self@),
    ;

    fn parse(buf: &[u8]) -> (r: Result<Self, PacketParseError>)
        ensures
            match Self::parse_error(buf@) {
                Some(e) => r == Err::<Self, PacketParseError>(e),
                None => r is Ok && r->Ok_0@ == Self::parsed(buf@),
            },
    ;

    fn data(&self) -> (d: &Vec<u8>)
        ensures
            d@ == Self::payload(self@),
    ;

    /// The payload, to be changed in place.
    fn mut_data(&mut self) -> (d: &mut Vec<u8>)
        ensures
            d@ == Self::payload(old(self)@),
            Self::payload(final(self)@) == final(d)@,
    ;

    fn manufacturer() -> (m: Manufacturer)
        ensures
            m == Self::spec_manufacturer(),
    ;

    fn command(&self) -> (c: Command)
        ensures
            c == Self::command_of(self@),
    ;

    fn is_correct_response(&self, response: &Self) -> (b: bool)
        ensures
            b == Self::acknowledges(self@, response@),
    ;

    fn length_from_buffer(buf: &[u8]) -> (l: Option<usize>)
        ensures
            l == Self::declared_length(buf@),
    ;

    fn baud_rate() -> (rate: u32)
        ensures
            rate == Self::spec_baud_rate(),
    ;

    fn prefix() -> (p: Vec<u8>)
        ensures
            p@ == Self::spec_prefix(),
    ;

    fn suffix() -> (s: Vec<u8>)
        ensures
            s@ == Self::spec_suffix(),
    ;
}

/// A device handler of one dialect: which frames it is for, whether
/// frames it has taken go on to the handlers after it, and the port it is
/// attached to.
pub trait PacketHandler<T: SerialPacket> {
    /// The handler is for `packet`.
    spec fn takes(&self, packet: T::V) -> bool;

    /// Frames that the handler has taken go on to the handlers after it.
    spec fn chains(&self) -> bool;

    /// The handler is attached to the primary port.
    spec fn on_primary(&self) -> bool;

    fn matches(&self, packet: &T) -> (b: bool)
        ensures
            b == self.takes(packet@),
    ;

    fn chaining(&self) -> (b: bool)
        ensures
            b == self.chains(),
    ;

    fn is_primary(&self) -> (b: bool)
        ensures
            b == self.on_primary(),
    ;
}

/// The dialect that a name stands for, whatever the case of its letters.
pub open spec fn manufacturer_named(name: Seq<u8>) -> Option<Manufacturer> {
    if lowered(name) == bytes_of("hyundaiht") {
        Some(Manufacturer::HyundaiHT)
    } else {
        None
    }
}

impl Manufacturer {
    /// The dialect that `name` stands for, whatever the case of its
    /// letters.
    pub fn from_text(name: &[u8]) -> (m: Option<Self>)
        ensures
            m == manufacturer_named(name@),
    {
        if is_word(name, "hyundaiht".as_bytes()) {
            Some(Manufacturer::HyundaiHT)
        } else {
            None
        }
    }
}

impl std::str::FromStr for Manufacturer {
    type Err = ();

    fn from_str(s: &str) -> (r: Result<Self, ()>)
        ensures
            r == match manufacturer_named(bytes_of(s)) {
                Some(m) => Ok::<Manufacturer, ()>(m),
                None => Err::<Manufacturer, ()>(()),
            },
    {
        match Manufacturer::from_text(s.as_bytes()) {
            Some(m) => Ok(m),
            None => Err(()),
        }
    }
}

} // verus!
