//! The Hyundai HT dialect.
//!
//! A frame is `PREFIX`, the total length, a reserved byte, the device id, the
//! command code, the sub-device id, the room id, the payload, the XOR of all
//! bytes before it, and `SUFFIX`.

use vstd::prelude::*;

use crate::serial::packet::{
    Command, Manufacturer, PacketHandler, PacketParseError, SerialPacket,
};
use crate::serial::reassembler::{
    cut_at, is_fragmented_frame, is_whole_frame, joined, lemma_joined_prefix,
};
use crate::text::starts_with;
use crate::things::ventilator::Ventilator;
use crate::things::{Channels, Feature};
use crate::utils::{append_bytes, copy_range, lemma_xor_fold_push, xor_checksum, xor_fold};

verus! {

/// First byte of every frame.
pub const PREFIX: u8 = 0xF7;

/// Last byte of every frame.
pub const SUFFIX: u8 = 0xEE;

/// Bytes of a frame around its payload: seven before it, two after it.
pub const OVERHEAD: usize = 9;

/// The longest payload whose frame length still fits the length byte.
pub const MAX_DATA_LEN: usize = 246;

/// The value that stations put in the reserved byte.
pub const RESERVED: u8 = 0x01;

/// Line speed of the bus.
pub const BAUD_RATE: u32 = 9600;

/// One frame of the Hyundai HT bus.
#[derive(Debug, PartialEq, Eq)]
pub struct HyundaiPacket {
    pub length: u8,
    pub unspecified_0x02: u8,
    pub device_id: u8,
    pub command: Command,
    pub device_sub_id: u8,
    pub room_id: u8,
    pub header_checksum: u8,
    pub data: Vec<u8>,
    pub data_checksum: u8,
}

/// A frame as a mathematical value.
pub struct HyundaiPacketView {
    pub length: u8,
    pub unspecified_0x02: u8,
    pub device_id: u8,
    pub command: Command,
    pub device_sub_id: u8,
    pub room_id: u8,
    pub header_checksum: u8,
    pub data: Seq<u8>,
    pub data_checksum: u8,
}

impl Clone for HyundaiPacket {
    fn clone(&self) -> (copy: Self)
        ensures
            copy@ == self@,
    {
        let data = copy_range(self.data.as_slice(), 0, self.data.len());
        assert(data@ =~= self.data@);
        HyundaiPacket {
            length: self.length,
            unspecified_0x02: self.unspecified_0x02,
            device_id: self.device_id,
            command: self.command,
            device_sub_id: self.device_sub_id,
            room_id: self.room_id,
            header_checksum: self.header_checksum,
            data,
            data_checksum: self.data_checksum,
        }
    }
}

impl View for HyundaiPacket {
    type V = HyundaiPacketView;

    open spec fn view(&self) -> HyundaiPacketView {
        HyundaiPacketView {
            length: self.length,
            unspecified_0x02: self.unspecified_0x02,
            device_id: self.device_id,
            command: self.command,
            device_sub_id: self.device_sub_id,
            room_id: self.room_id,
            header_checksum: self.header_checksum,
            data: self.data@,
            data_checksum: self.data_checksum,
        }
    }
}

/// The byte that stands for a command on the wire.
pub open spec fn command_code(command: Command) -> u8 {
    match command {
        Command::Request => 0x01,
        Command::Modify => 0x02,
        Command::Response => 0x04,
    }
}

/// The command that a byte on the wire stands for, if any.
pub open spec fn command_of(code: u8) -> Option<Command> {
    if code == 0x01 {
        Some(Command::Request)
    } else if code == 0x02 {
        Some(Command::Modify)
    } else if code == 0x04 {
        Some(Command::Response)
    } else {
        None
    }
}

/// XOR of the seven header bytes of a frame.
pub open spec fn header_xor(
    length: u8,
    reserved: u8,
    device_id: u8,
    code: u8,
    device_sub_id: u8,
    room_id: u8,
) -> u8 {
    PREFIX ^ length ^ reserved ^ device_id ^ code ^ device_sub_id ^ room_id
}

impl HyundaiPacketView {
    /// The payload fits a frame.
    pub open spec fn encodable(self) -> bool {
        self.data.len() <= MAX_DATA_LEN
    }

    /// The length that the frame of this packet has on the wire.
    pub open spec fn wire_length(self) -> u8
        recommends
            self.encodable(),
    {
        (OVERHEAD + self.data.len()) as u8
    }

    /// The seven bytes before the payload.
    pub open spec fn header(self) -> Seq<u8> {
        seq![
            PREFIX,
            self.wire_length(),
            self.unspecified_0x02,
            self.device_id,
            command_code(self.command),
            self.device_sub_id,
            self.room_id,
        ]
    }

    /// The frame of this packet: header, payload, checksum, `SUFFIX`.
    pub open spec fn frame(self) -> Seq<u8> {
        let body = self.header() + self.data;
        body.push(xor_fold(body)).push(SUFFIX)
    }

    /// The stored length is the length on the wire and both stored checksums
    /// are those of the header and of the payload.
    pub open spec fn wf(self) -> bool {
        &&& self.encodable()
        &&& self.length == self.wire_length()
        &&& self.header_checksum == xor_fold(self.header())
        &&& self.data_checksum == xor_fold(self.data)
    }

    /// The same packet as a response.
    pub open spec fn as_response(self) -> HyundaiPacketView {
        HyundaiPacketView { command: Command::Response, ..self }
    }

    /// The packet that `new` builds from these parts.
    pub open spec fn build(
        device_id: u8,
        command: Command,
        device_sub_id: u8,
        room_id: u8,
        data: Seq<u8>,
    ) -> HyundaiPacketView {
        let length = (OVERHEAD + data.len()) as u8;
        HyundaiPacketView {
            length,
            unspecified_0x02: RESERVED,
            device_id,
            command,
            device_sub_id,
            room_id,
            header_checksum: header_xor(
                length,
                RESERVED,
                device_id,
                command_code(command),
                device_sub_id,
                room_id,
            ),
            data,
            data_checksum: xor_fold(data),
        }
    }
}

/// The first check that `buf` fails: minimum length, declared length,
/// checksum, command code, in this order. `None` if it passes them all.
pub open spec fn decode_error(buf: Seq<u8>) -> Option<PacketParseError> {
    if buf.len() < OVERHEAD {
        Some(PacketParseError::BufferLengthTooSmall)
    } else if buf[1] as int != buf.len() {
        Some(PacketParseError::SizeMismatch)
    } else if buf[buf.len() - 2] != xor_fold(buf.take(buf.len() - 2)) {
        Some(PacketParseError::ChecksumMismatch)
    } else if command_of(buf[4]) is None {
        Some(PacketParseError::UnsupportedCommand)
    } else {
        None
    }
}

/// The packet whose fields are read off the bytes of `buf`.
pub open spec fn decoded(buf: Seq<u8>) -> HyundaiPacketView
    recommends
        decode_error(buf) is None,
{
    let data = buf.subrange(7, buf.len() - 2);
    HyundaiPacketView {
        length: buf[1],
        unspecified_0x02: buf[2],
        device_id: buf[3],
        command: command_of(buf[4])->Some_0,
        device_sub_id: buf[5],
        room_id: buf[6],
        header_checksum: xor_fold(buf.take(7)),
        data,
        data_checksum: xor_fold(data),
    }
}

/// The total length that a buffer declares, once its second byte is there.
pub open spec fn length_hint(buf: Seq<u8>) -> Option<usize> {
    if buf.len() < 2 {
        None
    } else {
        Some(buf[1] as usize)
    }
}

/// `received` lets the sender of `sent` stop waiting: `sent` is itself a
/// response, or `received` is a response from the same device, sub-device
/// and room.
pub open spec fn correlates(sent: HyundaiPacketView, received: HyundaiPacketView) -> bool {
    sent.command == Command::Response || (received.command == Command::Response
        && sent.device_id == received.device_id && sent.device_sub_id == received.device_sub_id
        && sent.room_id == received.room_id)
}

/// The XOR of a seven-byte sequence is the XOR of its bytes.
pub proof fn lemma_xor_fold_seven(s: Seq<u8>)
    requires
        s.len() == 7,
    ensures
        xor_fold(s) == s[0] ^ s[1] ^ s[2] ^ s[3] ^ s[4] ^ s[5] ^ s[6],
{
    let e = Seq::<u8>::empty();
    let s1 = e.push(s[0]);
    let s2 = s1.push(s[1]);
    let s3 = s2.push(s[2]);
    let s4 = s3.push(s[3]);
    let s5 = s4.push(s[4]);
    let s6 = s5.push(s[5]);
    let s7 = s6.push(s[6]);
    assert(s7 =~= s);
    lemma_xor_fold_push(e, s[0]);
    lemma_xor_fold_push(s1, s[1]);
    lemma_xor_fold_push(s2, s[2]);
    lemma_xor_fold_push(s3, s[3]);
    lemma_xor_fold_push(s4, s[4]);
    lemma_xor_fold_push(s5, s[5]);
    lemma_xor_fold_push(s6, s[6]);
    let x = s[0];
    assert(0u8 ^ x == x) by (bit_vector);
}

/// Decoding the frame of a well-formed packet gives that packet back.
pub proof fn lemma_decode_encode(p: HyundaiPacketView)
    requires
        p.wf(),
    ensures
        decode_error(p.frame()) is None,
        decoded(p.frame()) == p,
{
    let body = p.header() + p.data;
    let f = p.frame();
    assert(f.len() == OVERHEAD + p.data.len());
    assert(f.take(f.len() - 2) =~= body);
    assert(f.take(7) =~= p.header());
    assert(f.subrange(7, f.len() - 2) =~= p.data);
    assert(decoded(f).data == p.data);
}

/// A byte sequence that decodes, and that opens with `PREFIX` and closes
/// with `SUFFIX`, is the frame of the packet it decodes to, and that packet
/// is well formed.
pub proof fn lemma_encode_decode(buf: Seq<u8>)
    requires
        decode_error(buf) is None,
        buf[0] == PREFIX,
        buf[buf.len() - 1] == SUFFIX,
    ensures
        decoded(buf).wf(),
        decoded(buf).frame() == buf,
{
    let p = decoded(buf);
    assert(p.header() =~= buf.take(7));
    assert(p.header() + p.data =~= buf.take(buf.len() - 2));
    assert(p.frame() =~= buf);
}

/// In every byte sequence that decodes, the last byte but one is the XOR of
/// all bytes before it.
pub proof fn lemma_accepted_checksum(buf: Seq<u8>)
    requires
        decode_error(buf) is None,
    ensures
        buf.len() >= OVERHEAD,
        buf[buf.len() - 2] == xor_fold(buf.take(buf.len() - 2)),
{
}

/// A response acknowledges a pending request or modification exactly when
/// device, sub-device and room are the same in both.
pub proof fn lemma_response_correlation(sent: HyundaiPacketView, received: HyundaiPacketView)
    requires
        sent.command != Command::Response,
        received.command == Command::Response,
    ensures
        correlates(sent, received) <==> (sent.device_id == received.device_id
            && sent.device_sub_id == received.device_sub_id && sent.room_id == received.room_id),
{
}

/// Nothing but a response acknowledges a pending request or modification.
pub proof fn lemma_only_responses_acknowledge(sent: HyundaiPacketView, received: HyundaiPacketView)
    requires
        sent.command != Command::Response,
        received.command != Command::Response,
    ensures
        !correlates(sent, received),
{
}

/// A byte sequence that begins with `PREFIX` and whose second byte is its
/// length is a whole frame to the reassembler; every byte sequence that
/// decodes and begins with `PREFIX` is one.
pub proof fn lemma_whole_frame(frame: Seq<u8>)
    requires
        frame.len() >= 2,
        frame[0] == PREFIX,
        frame[1] as int == frame.len(),
    ensures
        is_whole_frame::<HyundaiPacket>(frame),
        forall|n: int|
            0 < n < frame.len() ==> cut_at::<HyundaiPacket>(#[trigger] frame.take(n)) is None,
{
    assert(frame.take(1) =~= seq![PREFIX]);
    assert forall|n: int| 0 < n < frame.len() implies cut_at::<HyundaiPacket>(
        #[trigger] frame.take(n),
    ) is None by {
        if n >= 2 {
            assert(frame.take(n)[1] == frame[1]);
        }
    }
}

/// A frame that reads return in pieces, the first and the last of them not
/// empty, is a fragmented frame to the reassembler.
pub proof fn lemma_pieces_of_a_frame(pieces: Seq<Seq<u8>>)
    requires
        pieces.len() > 0,
        pieces[0].len() > 0,
        pieces.last().len() > 0,
        joined(pieces).len() >= 2,
        joined(pieces)[0] == PREFIX,
        joined(pieces)[1] as int == joined(pieces).len(),
    ensures
        is_fragmented_frame::<HyundaiPacket>(pieces),
{
    let frame = joined(pieces);
    lemma_whole_frame(frame);
    lemma_joined_prefix(pieces, 1);
    let first = pieces.take(1);
    assert(first.drop_last() =~= Seq::<Seq<u8>>::empty());
    assert(first.last() == pieces[0]);
    assert(joined(first.drop_last()) =~= Seq::<u8>::empty());
    assert(joined(first) =~= pieces[0]);
    assert(pieces[0][0] == frame[0]);
    assert(pieces[0].take(1) =~= seq![PREFIX]);
    assert(starts_with(pieces[0], seq![PREFIX]));
}

/// The byte that stands for `command` on the wire.
pub fn command_byte(command: Command) -> (code: u8)
    ensures
        code == command_code(command),
        command_of(code) == Some(command),
{
    match command {
        Command::Request => 0x01,
        Command::Modify => 0x02,
        Command::Response => 0x04,
    }
}

impl HyundaiPacket {
    /// A packet for the given device and payload, with its length and both
    /// checksums filled in.
    pub fn new(device_id: u8, command: Command, device_sub_id: u8, room_id: u8, data: Vec<u8>) -> (p:
        Self)
        requires
            data@.len() <= MAX_DATA_LEN,
        ensures
            p@ == HyundaiPacketView::build(device_id, command, device_sub_id, room_id, data@),
            p@.wf(),
    {
        let length: u8 = (OVERHEAD + data.len()) as u8;
        let code = command_byte(command);
        let header_checksum = PREFIX ^ length ^ RESERVED ^ device_id ^ code ^ device_sub_id
            ^ room_id;
        let data_checksum = xor_checksum(data.as_slice(), data.len());
        proof {
            assert(data@.take(data@.len() as int) =~= data@);
            let v = HyundaiPacketView::build(device_id, command, device_sub_id, room_id, data@);
            lemma_xor_fold_seven(v.header());
        }
        HyundaiPacket {
            length,
            unspecified_0x02: RESERVED,
            device_id,
            command,
            device_sub_id,
            room_id,
            header_checksum,
            data,
            data_checksum,
        }
    }
}

impl SerialPacket for HyundaiPacket {
    open spec fn encodable(packet: HyundaiPacketView) -> bool {
        packet.encodable()
    }

    open spec fn wire(packet: HyundaiPacketView) -> Seq<u8> {
        packet.frame()
    }

    open spec fn parse_error(buf: Seq<u8>) -> Option<PacketParseError> {
        decode_error(buf)
    }

    open spec fn parsed(buf: Seq<u8>) -> HyundaiPacketView {
        decoded(buf)
    }

    open spec fn payload(packet: HyundaiPacketView) -> Seq<u8> {
        packet.data
    }

    open spec fn spec_manufacturer() -> Manufacturer {
        Manufacturer::HyundaiHT
    }

    open spec fn command_of(packet: HyundaiPacketView) -> Command {
        packet.command
    }

    open spec fn acknowledges(sent: HyundaiPacketView, received: HyundaiPacketView) -> bool {
        correlates(sent, received)
    }

    open spec fn declared_length(buf: Seq<u8>) -> Option<usize> {
        length_hint(buf)
    }

    open spec fn spec_prefix() -> Seq<u8> {
        seq![PREFIX]
    }

    open spec fn spec_suffix() -> Seq<u8> {
        seq![SUFFIX]
    }

    open spec fn spec_baud_rate() -> u32 {
        BAUD_RATE
    }

    /// The frame of the packet. The length byte and the checksum are computed
    /// from the fields that travel; the stored ones are not consulted.
    fn to_vec(&self) -> (v: Vec<u8>)
        ensures
            v@.len() == OVERHEAD + self.data@.len(),
            v@[0] == PREFIX,
            v@[v@.len() - 1] == SUFFIX,
            v@[v@.len() - 2] == xor_fold(v@.take(v@.len() - 2)),
            self@.wf() ==> v@.len() == self.length,
    {
        let mut v: Vec<u8> = Vec::new();
        v.push(PREFIX);
        v.push((OVERHEAD + self.data.len()) as u8);
        v.push(self.unspecified_0x02);
        v.push(self.device_id);
        v.push(command_byte(self.command));
        v.push(self.device_sub_id);
        v.push(self.room_id);
        assert(v@ =~= self@.header());
        append_bytes(&mut v, self.data.as_slice());
        let ghost body = v@;
        let checksum = xor_checksum(v.as_slice(), v.len());
        assert(body.take(body.len() as int) =~= body);
        v.push(checksum);
        v.push(SUFFIX);
        assert(v@.take(v@.len() - 2) =~= body);
        v
    }

    fn parse(buf: &[u8]) -> (r: Result<Self, PacketParseError>) {
        let n = buf.len();
        if n < OVERHEAD {
            return Err(PacketParseError::BufferLengthTooSmall);
        }
        if buf[1] as usize != n {
            return Err(PacketParseError::SizeMismatch);
        }
        if buf[n - 2] != xor_checksum(buf, n - 2) {
            return Err(PacketParseError::ChecksumMismatch);
        }
        let data = copy_range(buf, 7, n - 2);
        let data_checksum = xor_checksum(data.as_slice(), data.len());
        assert(data@.take(data@.len() as int) =~= data@);
        let command = match buf[4] {
            0x01 => Command::Request,
            0x02 => Command::Modify,
            0x04 => Command::Response,
            _ => {
                return Err(PacketParseError::UnsupportedCommand);
            },
        };
        Ok(
            HyundaiPacket {
                length: buf[1],
                unspecified_0x02: buf[2],
                device_id: buf[3],
                command,
                device_sub_id: buf[5],
                room_id: buf[6],
                header_checksum: xor_checksum(buf, 7),
                data,
                data_checksum,
            },
        )
    }

    fn data(&self) -> (d: &Vec<u8>) {
        &self.data
    }

    fn mut_data(&mut self) -> (d: &mut Vec<u8>)
        ensures
            final(self)@ == (HyundaiPacketView { data: final(d)@, ..old(self)@ }),
    {
        &mut self.data
    }

    fn manufacturer() -> (m: Manufacturer) {
        Manufacturer::HyundaiHT
    }

    fn command(&self) -> (c: Command) {
        self.command
    }

    fn is_correct_response(&self, response: &Self) -> (b: bool) {
        self.command == Command::Response || (response.command == Command::Response
            && self.device_id == response.device_id && self.device_sub_id
            == response.device_sub_id && self.room_id == response.room_id)
    }

    fn length_from_buffer(buf: &[u8]) -> (l: Option<usize>) {
        if buf.len() < 2 {
            None
        } else {
            Some(buf[1] as usize)
        }
    }

    fn baud_rate() -> (rate: u32) {
        BAUD_RATE
    }

    fn prefix() -> (p: Vec<u8>) {
        let mut p: Vec<u8> = Vec::new();
        p.push(PREFIX);
        assert(p@ =~= seq![PREFIX]);
        p
    }

    fn suffix() -> (s: Vec<u8>) {
        let mut s: Vec<u8> = Vec::new();
        s.push(SUFFIX);
        assert(s@ =~= seq![SUFFIX]);
        s
    }
}

/// Does a filter field let `value` pass? An absent field lets any value
/// pass.
pub open spec fn passes(filter: Option<u8>, value: u8) -> bool {
    match filter {
        Some(wanted) => wanted == value,
        None => true,
    }
}

/// A device handler: the frames it is for, the device whose logic it runs
/// on them, the port it is attached to, and whether frames it has taken
/// go on to the handlers after it.
#[derive(Debug, Clone, Copy, PartialEq, Eq, Structural)]
pub struct HyundaiPacketHandler {
    pub device_id: Option<u8>,
    pub device_sub_id: Option<u8>,
    pub room_id: Option<u8>,
    pub callback: Feature,
    pub is_primary: bool,
    pub chaining: bool,
}

impl PacketHandler<HyundaiPacket> for HyundaiPacketHandler {
    open spec fn takes(&self, packet: HyundaiPacketView) -> bool {
        self.accepts(packet)
    }

    open spec fn chains(&self) -> bool {
        self.chaining
    }

    open spec fn on_primary(&self) -> bool {
        self.is_primary
    }

    fn matches(&self, packet: &HyundaiPacket) -> (b: bool) {
        let device = match self.device_id {
            Some(wanted) => wanted == packet.device_id,
            None => true,
        };
        let sub = match self.device_sub_id {
            Some(wanted) => wanted == packet.device_sub_id,
            None => true,
        };
        let room = match self.room_id {
            Some(wanted) => wanted == packet.room_id,
            None => true,
        };
        device && sub && room
    }

    fn chaining(&self) -> (b: bool) {
        self.chaining
    }

    fn is_primary(&self) -> (b: bool) {
        self.is_primary
    }
}

impl HyundaiPacketHandler {
    /// The handler is for `packet`: every field of its filter lets the
    /// packet pass.
    pub open spec fn accepts(self, packet: HyundaiPacketView) -> bool {
        passes(self.device_id, packet.device_id) && passes(self.device_sub_id, packet.device_sub_id)
            && passes(self.room_id, packet.room_id)
    }

    /// Runs the device logic on `packet` if the handler is for it, and says
    /// whether it was.
    pub fn handle(
        &self,
        packet: &HyundaiPacket,
        channels: &mut Channels<HyundaiPacket>,
        ventilator: &mut Ventilator,
    ) -> (consumed: bool)
        ensures
            consumed == self.accepts(packet@),
            final(channels)@.queued == old(channels)@.queued,
            consumed ==> final(channels)@.published == old(channels)@.published
                + self.callback.published(packet@) && *final(ventilator)
                == self.callback.remembered(packet@, *old(ventilator)),
            !consumed ==> final(channels)@.published == old(channels)@.published,
            !consumed ==> *final(ventilator) == *old(ventilator),
    {
        if self.matches(packet) {
            self.callback.on_packet(packet, channels, ventilator);
            true
        } else {
            false
        }
    }

}

} // verus!
