//! Floor heating: one thermostat per room.
//!
//! The bus reports a room as power, current and target temperature; the
//! report for room `0x10` holds four rooms at once. Commands come in over
//! `heating/{room}/temp/set`, `heating/{room}/power/set` and
//! `heating/{room}/mode/set`.

use vstd::prelude::*;

use crate::serial::data::floor_heating_packet::{heating_power_code, FloorHeatingDataPacket};
use crate::serial::data::Data;
use crate::serial::packet::hyundai::{HyundaiPacket, HyundaiPacketView};
use crate::serial::packet::{Command, Manufacturer};
use crate::text::{
    between, boolean, boolean_text, bytes_of, decimal, decimal_text, finishes_with, has_prefix,
    has_suffix, middle, parse_bool, parse_boolean, parse_bounded, parse_saturating_byte,
    parse_unsigned_u64, push_decimal, same_bytes, saturating_byte, starts_with, text,
};
use crate::things::{view_of, Channels, Outbox, Publish, PublishView};
use crate::utils::append_bytes;

verus! {

/// The device id of the floor heating.
pub const HEATING_DEVICE: u8 = 0x18;

/// The sub-device that reports and sets temperatures.
pub const HEATING_TEMPERATURE: u8 = 0x45;

/// The sub-device that reports and sets power.
pub const HEATING_POWER: u8 = 0x46;

/// The room id under which all rooms report at once.
pub const HEATING_ALL_ROOMS: u8 = 0x10;

/// The room id of room number `0` in a command.
pub const HEATING_FIRST_ROOM: u8 = 0x11;

/// The highest room number that has a room id.
pub const HEATING_LAST_ROOM_NUMBER: u8 = 0xEE;

/// The temperature that is set when the payload names none.
pub const DEFAULT_TEMPERATURE: u8 = 5;

/// The floor heating.
#[derive(Debug, Clone, Copy, PartialEq, Eq, Structural)]
pub struct FloorHeating {}

/// The topic of one value of one room: `heating/{room}{leaf}`.
pub open spec fn heating_topic(room: u8, leaf: &str) -> Seq<u8> {
    bytes_of("heating/") + decimal_text(room as nat) + bytes_of(leaf)
}

/// The three messages that report the state of a room from its three data
/// bytes; none if the data cannot be read.
pub open spec fn room_report(room: u8, data: Seq<u8>) -> Seq<PublishView> {
    match FloorHeatingDataPacket::parsed(Manufacturer::HyundaiHT, data) {
        Ok(state) => seq![
            PublishView {
                topic: heating_topic(room, "/power"),
                payload: boolean_text(state.power->Some_0),
            },
            PublishView {
                topic: heating_topic(room, "/temp/current"),
                payload: decimal_text(state.current_temp->Some_0 as nat),
            },
            PublishView {
                topic: heating_topic(room, "/temp/target"),
                payload: decimal_text(state.target_temp->Some_0 as nat),
            },
        ],
        Err(_) => Seq::empty(),
    }
}

/// What a response for one room reports: the room is its room id less
/// `0x10`, its state the data bytes 1 to 3.
pub open spec fn single_report(packet: HyundaiPacketView) -> Seq<PublishView> {
    if packet.room_id >= HEATING_ALL_ROOMS && packet.data.len() >= 4 {
        room_report((packet.room_id - HEATING_ALL_ROOMS) as u8, packet.data.subrange(1, 4))
    } else {
        Seq::empty()
    }
}

/// What a response for all rooms reports: rooms 0 to 3, three data bytes
/// each, from byte 1 on.
pub open spec fn full_report(packet: HyundaiPacketView) -> Seq<PublishView> {
    if packet.data.len() < 13 {
        Seq::empty()
    } else {
        room_report(0, packet.data.subrange(1, 4)) + room_report(1, packet.data.subrange(4, 7))
            + room_report(2, packet.data.subrange(7, 10)) + room_report(
            3,
            packet.data.subrange(10, 13),
        )
    }
}

/// What the heating publishes for a frame of its device.
pub open spec fn heating_published(packet: HyundaiPacketView) -> Seq<PublishView> {
    if packet.command != Command::Response {
        Seq::empty()
    } else if packet.device_sub_id == HEATING_TEMPERATURE {
        if packet.room_id == HEATING_ALL_ROOMS {
            full_report(packet)
        } else {
            single_report(packet)
        }
    } else if packet.device_sub_id == HEATING_POWER {
        single_report(packet)
    } else {
        Seq::empty()
    }
}

/// The command for a room, if the room number has a room id.
pub open spec fn heating_command(sub: u8, room: u8, code: u8) -> Seq<HyundaiPacketView> {
    if room <= HEATING_LAST_ROOM_NUMBER {
        seq![
            HyundaiPacketView::build(
                HEATING_DEVICE,
                Command::Modify,
                sub,
                (HEATING_FIRST_ROOM + room) as u8,
                seq![code, 0u8],
            ),
        ]
    } else {
        Seq::empty()
    }
}

/// The room number in a topic `heating/{room}{suffix}`.
pub open spec fn heating_room(topic: Seq<u8>, suffix: &str) -> Option<u8> {
    match middle(topic, bytes_of("heating/"), bytes_of(suffix)) {
        Some(room) => match parse_unsigned_u64(room, 255) {
            Some(number) => Some(number as u8),
            None => None,
        },
        None => None,
    }
}

/// The temperature that a payload asks for: a whole number brought into
/// the range of a byte, `5` if the payload is no whole number.
pub open spec fn temperature_of(payload: Seq<u8>) -> u8 {
    match saturating_byte(payload) {
        Some(t) => t,
        None => DEFAULT_TEMPERATURE,
    }
}

/// The packets that a message sends to the heating.
///
/// `heating/{room}/temp/set` sets the target temperature,
/// `heating/{room}/power/set` switches on for `true` and off for anything
/// else, `heating/{room}/mode/set` switches on for `heat` and off for
/// anything else. A topic without a room number sends nothing.
pub open spec fn heating_commands(topic: Seq<u8>, payload: Seq<u8>) -> Seq<HyundaiPacketView> {
    if !starts_with(topic, bytes_of("heating/")) {
        Seq::empty()
    } else if finishes_with(topic, bytes_of("/temp/set")) {
        match heating_room(topic, "/temp/set") {
            Some(room) => heating_command(HEATING_TEMPERATURE, room, temperature_of(payload)),
            None => Seq::empty(),
        }
    } else if finishes_with(topic, bytes_of("/power/set")) {
        match heating_room(topic, "/power/set") {
            Some(room) => heating_command(
                HEATING_POWER,
                room,
                heating_power_code(parse_boolean(payload) == Some(true)),
            ),
            None => Seq::empty(),
        }
    } else if finishes_with(topic, bytes_of("/mode/set")) {
        match heating_room(topic, "/mode/set") {
            Some(room) => heating_command(
                HEATING_POWER,
                room,
                heating_power_code(payload == bytes_of("heat")),
            ),
            None => Seq::empty(),
        }
    } else {
        Seq::empty()
    }
}

/// The topic `heating/{room}{leaf}`.
pub fn heating_topic_of(room: u8, leaf: &str) -> (topic: Vec<u8>)
    ensures
        topic@ == heating_topic(room, leaf),
{
    let mut topic = text("heating/");
    push_decimal(&mut topic, room as u64);
    append_bytes(&mut topic, leaf.as_bytes());
    topic
}

/// The room number in a topic `heating/{room}{suffix}`.
pub fn heating_room_of(topic: &[u8], suffix: &str) -> (room: Option<u8>)
    ensures
        room == heating_room(topic@, suffix),
{
    match between(topic, "heating/".as_bytes(), suffix.as_bytes()) {
        Some(room) => match parse_bounded(room, 255) {
            Some(number) => Some(number as u8),
            None => None,
        },
        None => None,
    }
}

impl FloorHeating {
    pub fn new() -> Self {
        FloorHeating {  }
    }

    /// The topics that the heating listens to.
    pub fn subscription() -> (filter: &'static str)
        ensures
            filter@ == "heating/+/+/set"@,
    {
        "heating/+/+/set"
    }

    /// Publishes the state of a room from its three data bytes.
    pub fn send_data(room_id: u8, data: &[u8], link_tx: &mut Outbox)
        ensures
            final(link_tx)@ == old(link_tx)@ + room_report(room_id, data@),
    {
        match FloorHeatingDataPacket::parse::<HyundaiPacket>(data) {
            Ok(state) => {
                match (state.power, state.current_temp, state.target_temp) {
                    (Some(power), Some(current), Some(target)) => {
                        link_tx.publish(heating_topic_of(room_id, "/power"), boolean(power));
                        link_tx.publish(
                            heating_topic_of(room_id, "/temp/current"),
                            decimal(current as u64),
                        );
                        link_tx.publish(
                            heating_topic_of(room_id, "/temp/target"),
                            decimal(target as u64),
                        );
                    },
                    _ => {},
                }
            },
            Err(_) => {},
        }
        assert(link_tx@ =~= old(link_tx)@ + room_report(room_id, data@));
    }

    /// Publishes what a response for one room reports.
    pub fn on_response(packet: &HyundaiPacket, channels: &mut Channels<HyundaiPacket>)
        ensures
            final(channels)@.published == old(channels)@.published + single_report(packet@),
            final(channels)@.queued == old(channels)@.queued,
    {
        if packet.room_id >= HEATING_ALL_ROOMS && packet.data.len() >= 4 {
            let data = vstd::slice::slice_subrange(packet.data.as_slice(), 1, 4);
            Self::send_data(packet.room_id - HEATING_ALL_ROOMS, data, &mut channels.link_tx);
        }
        assert(channels@.published =~= old(channels)@.published + single_report(packet@));
    }

    /// Publishes what a response for all rooms reports.
    pub fn on_full_response(packet: &HyundaiPacket, channels: &mut Channels<HyundaiPacket>)
        ensures
            final(channels)@.published == old(channels)@.published + full_report(packet@),
            final(channels)@.queued == old(channels)@.queued,
    {
        if packet.data.len() >= 13 {
            let data = packet.data.as_slice();
            Self::send_data(0, vstd::slice::slice_subrange(data, 1, 4), &mut channels.link_tx);
            Self::send_data(1, vstd::slice::slice_subrange(data, 4, 7), &mut channels.link_tx);
            Self::send_data(2, vstd::slice::slice_subrange(data, 7, 10), &mut channels.link_tx);
            Self::send_data(3, vstd::slice::slice_subrange(data, 10, 13), &mut channels.link_tx);
        }
        assert(channels@.published =~= old(channels)@.published + full_report(packet@));
    }

    /// What the heating does with a frame of its device.
    pub fn on_packet(packet: &HyundaiPacket, channels: &mut Channels<HyundaiPacket>)
        ensures
            final(channels)@.published == old(channels)@.published + heating_published(packet@),
            final(channels)@.queued == old(channels)@.queued,
    {
        match packet.command {
            Command::Response => {
                if packet.device_sub_id == HEATING_TEMPERATURE {
                    if packet.room_id == HEATING_ALL_ROOMS {
                        Self::on_full_response(packet, channels);
                    } else {
                        Self::on_response(packet, channels);
                    }
                } else if packet.device_sub_id == HEATING_POWER {
                    Self::on_response(packet, channels);
                }
            },
            _ => {},
        }
        assert(channels@.published =~= old(channels)@.published + heating_published(packet@));
    }

    /// Queues the command `code` for the sub-device `sub` of a room.
    fn send_command(sub: u8, room_id: u8, code: u8, channels: &mut Channels<HyundaiPacket>)
        ensures
            final(channels)@.queued == old(channels)@.queued + heating_command(sub, room_id, code),
            final(channels)@.published == old(channels)@.published,
    {
        if room_id <= HEATING_LAST_ROOM_NUMBER {
            let data = crate::serial::data::two_bytes(code, 0);
            let packet = HyundaiPacket::new(
                HEATING_DEVICE,
                Command::Modify,
                sub,
                HEATING_FIRST_ROOM + room_id,
                data,
            );
            channels.serial_tx.send(packet);
        }
        assert(channels@.queued =~= old(channels)@.queued + heating_command(sub, room_id, code));
    }

    /// Queues the command that sets the target temperature of a room.
    pub fn set_temp(room_id: u8, temp: u8, channels: &mut Channels<HyundaiPacket>)
        ensures
            final(channels)@.queued == old(channels)@.queued + heating_command(
                HEATING_TEMPERATURE,
                room_id,
                temp,
            ),
            final(channels)@.published == old(channels)@.published,
    {
        Self::send_command(HEATING_TEMPERATURE, room_id, temp, channels);
    }

    /// Queues the command that switches the heating of a room on or off.
    pub fn set_power(room_id: u8, power: bool, channels: &mut Channels<HyundaiPacket>)
        ensures
            final(channels)@.queued == old(channels)@.queued + heating_command(
                HEATING_POWER,
                room_id,
                heating_power_code(power),
            ),
            final(channels)@.published == old(channels)@.published,
    {
        let code: u8 = if power {
            1
        } else {
            4
        };
        Self::send_command(HEATING_POWER, room_id, code, channels);
    }

    /// Queues the command that puts the heating of a room in `mode`: on for
    /// `heat`, off for anything else.
    pub fn set_mode(room_id: u8, mode: &[u8], channels: &mut Channels<HyundaiPacket>)
        ensures
            final(channels)@.queued == old(channels)@.queued + heating_command(
                HEATING_POWER,
                room_id,
                heating_power_code(mode@ == bytes_of("heat")),
            ),
            final(channels)@.published == old(channels)@.published,
    {
        let power = same_bytes(mode, "heat".as_bytes());
        Self::set_power(room_id, power, channels);
    }

    /// What the heating does with a message from the broker.
    pub fn topic_handler(
        pk: &Publish,
        ch: &mut Channels<HyundaiPacket>,
        secondary: &mut Option<Channels<HyundaiPacket>>,
    )
        ensures
            view_of(*final(secondary)) == view_of(*old(secondary)),
            final(ch)@.queued == old(ch)@.queued + heating_commands(pk@.topic, pk@.payload),
            final(ch)@.published == old(ch)@.published,
    {
        let topic = pk.topic.as_slice();
        let payload = pk.payload.as_slice();
        if has_prefix(topic, "heating/".as_bytes()) {
            if has_suffix(topic, "/temp/set".as_bytes()) {
                match heating_room_of(topic, "/temp/set") {
                    Some(room) => {
                        let temp = match parse_saturating_byte(payload) {
                            Some(t) => t,
                            None => DEFAULT_TEMPERATURE,
                        };
                        Self::set_temp(room, temp, ch);
                    },
                    None => {},
                }
            } else if has_suffix(topic, "/power/set".as_bytes()) {
                match heating_room_of(topic, "/power/set") {
                    Some(room) => {
                        let power = match parse_bool(payload) {
                            Some(value) => value,
                            None => false,
                        };
                        Self::set_power(room, power, ch);
                    },
                    None => {},
                }
            } else if has_suffix(topic, "/mode/set".as_bytes()) {
                match heating_room_of(topic, "/mode/set") {
                    Some(room) => {
                        Self::set_mode(room, payload, ch);
                    },
                    None => {},
                }
            }
        }
        assert(ch@.queued =~= old(ch)@.queued + heating_commands(pk@.topic, pk@.payload));
    }
}

} // verus!
