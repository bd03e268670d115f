//! The energy meter: totals of electricity, water and gas.
//!
//! The meter answers only when asked, so a periodic task asks it. It lives
//! on the secondary port.

use vstd::prelude::*;

use crate::serial::data::realtime_energy_packet::RealtimeEnergyDataPacket;
use crate::serial::data::{hyundai_request, Data};
use crate::serial::packet::hyundai::{HyundaiPacket, HyundaiPacketView};
use crate::serial::packet::{Command, Manufacturer};
use crate::text::{bytes_of, decimal, decimal_text, text};
use crate::things::{view_of, Channels, ChannelsView, Publish, PublishView};

verus! {

/// The device id of the energy meter.
pub const METER_DEVICE: u8 = 0x43;

/// The sub-device of the energy meter.
pub const METER_SUB: u8 = 0x1F;

/// The room id of the energy meter.
pub const METER_ROOM: u8 = 0x11;

/// The energy meter.
#[derive(Debug, Clone, Copy, PartialEq, Eq, Structural)]
pub struct RealtimeEnergyMeter {}

/// The three messages that report the totals in the data bytes of a
/// frame; none if the data cannot be read.
pub open spec fn meter_report(data: Seq<u8>) -> Seq<PublishView> {
    match RealtimeEnergyDataPacket::parsed(Manufacturer::HyundaiHT, data) {
        Ok(totals) => seq![
            PublishView {
                topic: bytes_of("electric/meter"),
                payload: decimal_text(totals.electric->Some_0 as nat),
            },
            PublishView {
                topic: bytes_of("water/meter"),
                payload: decimal_text(totals.water->Some_0 as nat),
            },
            PublishView {
                topic: bytes_of("gas/meter"),
                payload: decimal_text(totals.gas->Some_0 as nat),
            },
        ],
        Err(_) => Seq::empty(),
    }
}

/// What the meter publishes for a frame of its device.
pub open spec fn meter_published(packet: HyundaiPacketView) -> Seq<PublishView> {
    if packet.command == Command::Response {
        meter_report(packet.data)
    } else {
        Seq::empty()
    }
}

/// The packet that asks the meter for its totals.
pub open spec fn meter_request() -> HyundaiPacketView {
    HyundaiPacketView::build(
        METER_DEVICE,
        Command::Request,
        METER_SUB,
        METER_ROOM,
        hyundai_request(),
    )
}

/// The channels of the secondary port after a tick: the request is queued
/// if the port is there.
pub open spec fn meter_asked(secondary: Option<ChannelsView<HyundaiPacketView>>) -> Option<
    ChannelsView<HyundaiPacketView>,
> {
    match secondary {
        Some(channels) => Some(
            ChannelsView {
                published: channels.published,
                queued: channels.queued.push(meter_request()),
            },
        ),
        None => None,
    }
}

impl RealtimeEnergyMeter {
    pub fn new() -> Self {
        RealtimeEnergyMeter {  }
    }

    /// Publishes the totals that a response reports.
    pub fn on_response(packet: &HyundaiPacket, channels: &mut Channels<HyundaiPacket>)
        ensures
            final(channels)@.published == old(channels)@.published + meter_report(packet@.data),
            final(channels)@.queued == old(channels)@.queued,
    {
        match RealtimeEnergyDataPacket::parse::<HyundaiPacket>(packet.data.as_slice()) {
            Ok(totals) => {
                match (totals.electric, totals.water, totals.gas) {
                    (Some(electric), Some(water), Some(gas)) => {
                        channels.link_tx.publish(text("electric/meter"), decimal(electric as u64));
                        channels.link_tx.publish(text("water/meter"), decimal(water as u64));
                        channels.link_tx.publish(text("gas/meter"), decimal(gas as u64));
                    },
                    _ => {},
                }
            },
            Err(_) => {},
        }
        assert(channels@.published =~= old(channels)@.published + meter_report(packet@.data));
    }

    /// What the meter does with a frame of its device.
    pub fn on_packet(packet: &HyundaiPacket, channels: &mut Channels<HyundaiPacket>)
        ensures
            final(channels)@.published == old(channels)@.published + meter_published(packet@),
            final(channels)@.queued == old(channels)@.queued,
    {
        match packet.command {
            Command::Response => {
                Self::on_response(packet, channels);
            },
            _ => {},
        }
        assert(channels@.published =~= old(channels)@.published + meter_published(packet@));
    }

    /// The periodic task: asks the meter for its totals over the secondary
    /// port, if there is one.
    pub fn task(primary: &mut Channels<HyundaiPacket>, secondary: &mut Option<Channels<HyundaiPacket>>)
        ensures
            final(primary)@ == old(primary)@,
            view_of(*final(secondary)) == meter_asked(view_of(*old(secondary))),
    {
        match secondary {
            Some(channels) => {
                match RealtimeEnergyDataPacket::create_request::<HyundaiPacket>() {
                    Some(data) => {
                        let packet = HyundaiPacket::new(
                            METER_DEVICE,
                            Command::Request,
                            METER_SUB,
                            METER_ROOM,
                            data,
                        );
                        channels.serial_tx.send(packet);
                    },
                    None => {},
                }
            },
            None => {},
        }
    }

    /// What the meter does with a message from the broker: nothing.
    pub fn topic_handler(
        pk: &Publish,
        ch: &mut Channels<HyundaiPacket>,
        secondary: &mut Option<Channels<HyundaiPacket>>,
    )
        ensures
            final(ch)@ == old(ch)@,
            view_of(*final(secondary)) == view_of(*old(secondary)),
    {
    }
}

} // verus!
