//! The two lights of the living room.
//!
//! The bus reports a light as a switch; the report for room `0x10` holds
//! both lights. Commands come in over `light/0/{nn}/set`, where `00` means
//! both lights.

use vstd::prelude::*;

use crate::serial::data::binary_switch_packet::{light_code, BinarySwitchDataPacket};
use crate::serial::data::{two_bytes, Data};
use crate::serial::packet::hyundai::{HyundaiPacket, HyundaiPacketView};
use crate::serial::packet::{Command, Manufacturer};
use crate::text::{
    between, boolean, boolean_text, bytes_of, decimal_text_two, middle, parse_bool,
    parse_boolean, push_decimal_two, same_bytes, text,
};
use crate::things::{view_of, Channels, Publish, PublishView};

verus! {

/// The device id of the lights.
pub const LIGHT_DEVICE: u8 = 0x19;

/// The sub-device of the lights.
pub const LIGHT_SUB: u8 = 0x40;

/// The room id under which both lights report at once, and from which the
/// room ids of the lights count.
pub const LIGHT_ALL: u8 = 0x10;

/// The lights of the living room.
#[derive(Debug, Clone, Copy, PartialEq, Eq, Structural)]
pub struct LivingRoomLight {}

/// The topic of a light: `light/0/{nn}`, the number with two digits.
pub open spec fn light_topic(id: u8) -> Seq<u8> {
    bytes_of("light/0/") + decimal_text_two(id as nat)
}

/// The message that reports a light from its data bytes; none if the data
/// cannot be read.
pub open spec fn light_report(id: u8, data: Seq<u8>) -> Seq<PublishView> {
    match BinarySwitchDataPacket::parsed(Manufacturer::HyundaiHT, data) {
        Ok(state) => seq![
            PublishView { topic: light_topic(id), payload: boolean_text(state.status->Some_0) },
        ],
        Err(_) => Seq::empty(),
    }
}

/// The data byte at `index` alone, or nothing if the data is too short.
pub open spec fn byte_at(data: Seq<u8>, index: int) -> Seq<u8> {
    if 0 <= index < data.len() {
        data.subrange(index, index + 1)
    } else {
        Seq::empty()
    }
}

/// What the lights publish for a frame of their device: for room `0x10`
/// light 1 from data byte 1 and light 2 from data byte 2, for room `0x11`
/// light 1 and for room `0x12` light 2 from the data as a whole.
pub open spec fn light_published(packet: HyundaiPacketView) -> Seq<PublishView> {
    if packet.command != Command::Response {
        Seq::empty()
    } else if packet.room_id == 0x10 {
        light_report(1, byte_at(packet.data, 1)) + light_report(2, byte_at(packet.data, 2))
    } else if packet.room_id == 0x11 {
        light_report(1, packet.data)
    } else if packet.room_id == 0x12 {
        light_report(2, packet.data)
    } else {
        Seq::empty()
    }
}

/// The command that switches a light.
pub open spec fn light_command(room_id: u8, status: bool) -> Seq<HyundaiPacketView> {
    if room_id <= 0xEF {
        seq![
            HyundaiPacketView::build(
                LIGHT_DEVICE,
                Command::Modify,
                LIGHT_SUB,
                (LIGHT_ALL + room_id) as u8,
                seq![light_code(status), 0u8],
            ),
        ]
    } else {
        Seq::empty()
    }
}

/// The packets that a message sends to the lights: `light/0/00/set`
/// switches both lights, `light/0/01/set` and `light/0/02/set` one of
/// them; on for the payload `true`, off for anything else.
pub open spec fn light_commands(topic: Seq<u8>, payload: Seq<u8>) -> Seq<HyundaiPacketView> {
    let value = parse_boolean(payload) == Some(true);
    match middle(topic, bytes_of("light/"), bytes_of("/set")) {
        Some(id) => if id == bytes_of("0/00") {
            light_command(1, value) + light_command(2, value)
        } else if id == bytes_of("0/01") {
            light_command(1, value)
        } else if id == bytes_of("0/02") {
            light_command(2, value)
        } else {
            Seq::empty()
        },
        None => Seq::empty(),
    }
}

/// The data byte at `index` alone, or nothing if the data is too short.
pub fn byte_slice(data: &[u8], index: usize) -> (byte: &[u8])
    requires
        index < usize::MAX,
    ensures
        byte@ == byte_at(data@, index as int),
{
    if index < data.len() {
        vstd::slice::slice_subrange(data, index, index + 1)
    } else {
        let empty = vstd::slice::slice_subrange(data, 0, 0);
        assert(empty@ =~= Seq::<u8>::empty());
        empty
    }
}

impl LivingRoomLight {
    pub fn new() -> Self {
        LivingRoomLight {  }
    }

    /// The topics that the lights listen to.
    pub fn subscription() -> (filter: &'static str)
        ensures
            filter@ == "light/0/+/set"@,
    {
        "light/0/+/set"
    }

    /// Publishes the state of the light `id` from its data bytes.
    pub fn on_response(id: u8, buf: &[u8], channels: &mut Channels<HyundaiPacket>)
        ensures
            final(channels)@.published == old(channels)@.published + light_report(id, buf@),
            final(channels)@.queued == old(channels)@.queued,
    {
        match BinarySwitchDataPacket::parse::<HyundaiPacket>(buf) {
            Ok(state) => {
                match state.status {
                    Some(status) => {
                        let mut topic = text("light/0/");
                        push_decimal_two(&mut topic, id as u64);
                        channels.link_tx.publish(topic, boolean(status));
                    },
                    None => {},
                }
            },
            Err(_) => {},
        }
        assert(channels@.published =~= old(channels)@.published + light_report(id, buf@));
    }

    /// Queues the command that switches a light on or off.
    pub fn set_status(room_id: u8, status: bool, channels: &mut Channels<HyundaiPacket>)
        ensures
            final(channels)@.queued == old(channels)@.queued + light_command(room_id, status),
            final(channels)@.published == old(channels)@.published,
    {
        if room_id <= 0xEF {
            let code: u8 = if status {
                0x01
            } else {
                0x02
            };
            let packet = HyundaiPacket::new(
                LIGHT_DEVICE,
                Command::Modify,
                LIGHT_SUB,
                LIGHT_ALL + room_id,
                two_bytes(code, 0),
            );
            channels.serial_tx.send(packet);
        }
        assert(channels@.queued =~= old(channels)@.queued + light_command(room_id, status));
    }

    /// What the lights do with a frame of their device.
    pub fn on_packet(packet: &HyundaiPacket, channels: &mut Channels<HyundaiPacket>)
        ensures
            final(channels)@.published == old(channels)@.published + light_published(packet@),
            final(channels)@.queued == old(channels)@.queued,
    {
        match packet.command {
            Command::Response => {
                let data = packet.data.as_slice();
                if packet.room_id == 0x10 {
                    Self::on_response(1, byte_slice(data, 1), channels);
                    Self::on_response(2, byte_slice(data, 2), channels);
                } else if packet.room_id == 0x11 {
                    Self::on_response(1, data, channels);
                } else if packet.room_id == 0x12 {
                    Self::on_response(2, data, channels);
                }
            },
            _ => {},
        }
        assert(channels@.published =~= old(channels)@.published + light_published(packet@));
    }

    /// What the lights do with a message from the broker.
    pub fn topic_handler(
        pk: &Publish,
        ch: &mut Channels<HyundaiPacket>,
        secondary: &mut Option<Channels<HyundaiPacket>>,
    )
        ensures
            view_of(*final(secondary)) == view_of(*old(secondary)),
            final(ch)@.queued == old(ch)@.queued + light_commands(pk@.topic, pk@.payload),
            final(ch)@.published == old(ch)@.published,
    {
        match between(pk.topic.as_slice(), "light/".as_bytes(), "/set".as_bytes()) {
            Some(id) => {
                let value = match parse_bool(pk.payload.as_slice()) {
                    Some(v) => v,
                    None => false,
                };
                if same_bytes(id, "0/00".as_bytes()) {
                    Self::set_status(1, value, ch);
                    Self::set_status(2, value, ch);
                } else if same_bytes(id, "0/01".as_bytes()) {
                    Self::set_status(1, value, ch);
                } else if same_bytes(id, "0/02".as_bytes()) {
                    Self::set_status(2, value, ch);
                }
            },
            None => {},
        }
        assert(ch@.queued =~= old(ch)@.queued + light_commands(pk@.topic, pk@.payload));
    }
}

} // verus!
