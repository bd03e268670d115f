//! The devices behind the bridge and what connects them to MQTT and to the
//! ports: the messages to publish, the per-port channels, the registry of
//! handlers and the dispatch of frames, topics and ticks.

use vstd::prelude::*;

use crate::serial::packet::hyundai::{HyundaiPacket, HyundaiPacketHandler, HyundaiPacketView};
use crate::serial::packet::SerialPacket;
use crate::serial::SendQueue;
use crate::things::floor_heating::{heating_commands, heating_published, FloorHeating};
use crate::things::living_room_light::{light_commands, light_published, LivingRoomLight};
use crate::things::realtime_energy_meter::{meter_asked, meter_published, RealtimeEnergyMeter};
use crate::things::ventilator::Ventilator;

pub mod floor_heating;
pub mod living_room_light;
pub mod realtime_energy_meter;
pub mod ventilator;

verus! {

/// An MQTT message as a mathematical value.
pub struct PublishView {
    pub topic: Seq<u8>,
    pub payload: Seq<u8>,
}

/// An MQTT message: a topic and a payload, both ASCII text.
#[derive(Debug, Clone, PartialEq, Eq)]
pub struct Publish {
    pub topic: Vec<u8>,
    pub payload: Vec<u8>,
}

impl View for Publish {
    type V = PublishView;

    open spec fn view(&self) -> PublishView {
        PublishView { topic: self.topic@, payload: self.payload@ }
    }
}

/// The messages that the bridge has handed to the MQTT link, the oldest
/// first.
pub struct Outbox {
    messages: Vec<Publish>,
}

impl View for Outbox {
    type V = Seq<PublishView>;

    closed spec fn view(&self) -> Seq<PublishView> {
        Seq::new(self.messages@.len(), |i: int| self.messages@[i]@)
    }
}

impl Outbox {
    /// A link on which nothing was published.
    pub fn new() -> (outbox: Self)
        ensures
            outbox@ == Seq::<PublishView>::empty(),
    {
        let outbox = Outbox { messages: Vec::new() };
        assert(outbox@ =~= Seq::<PublishView>::empty());
        outbox
    }

    /// Publishes `payload` under `topic`.
    pub fn publish(&mut self, topic: Vec<u8>, payload: Vec<u8>)
        ensures
            final(self)@ == old(self)@.push(PublishView { topic: topic@, payload: payload@ }),
    {
        self.messages.push(Publish { topic, payload });
        assert(self@ =~= old(self)@.push(PublishView { topic: topic@, payload: payload@ }));
    }

    /// The number of messages published.
    pub fn len(&self) -> (n: usize)
        ensures
            n == self@.len(),
    {
        self.messages.len()
    }

    /// Hands out the messages published so far and forgets them.
    pub fn take(&mut self) -> (messages: Vec<Publish>)
        ensures
            final(self)@ == Seq::<PublishView>::empty(),
            messages@.len() == old(self)@.len(),
            forall|i: int| 0 <= i < messages@.len() ==> messages@[i]@ == old(self)@[i],
    {
        let mut messages: Vec<Publish> = Vec::new();
        std::mem::swap(&mut messages, &mut self.messages);
        assert(self@ =~= Seq::<PublishView>::empty());
        messages
    }
}

/// What the handlers of one port see, as a mathematical value.
pub struct ChannelsView<V> {
    /// The messages published on the MQTT link.
    pub published: Seq<PublishView>,
    /// The packets that wait to be written to the port.
    pub queued: Seq<V>,
}

/// What the handlers of one port work with: the MQTT link and the send
/// queue of the port.
pub struct Channels<T: SerialPacket> {
    pub link_tx: Outbox,
    pub serial_tx: SendQueue<T>,
}

impl<T: SerialPacket> View for Channels<T> {
    type V = ChannelsView<T::V>;

    open spec fn view(&self) -> ChannelsView<T::V> {
        ChannelsView { published: self.link_tx@, queued: self.serial_tx@ }
    }
}

impl<T: SerialPacket> Channels<T> {
    /// Channels with nothing published and nothing queued.
    pub fn new() -> (channels: Self)
        ensures
            channels@.published == Seq::<PublishView>::empty(),
            channels@.queued == Seq::<T::V>::empty(),
    {
        Channels { link_tx: Outbox::new(), serial_tx: SendQueue::new() }
    }
}

/// The view of the channels of a port that may be absent.
pub open spec fn view_of(channels: Option<Channels<HyundaiPacket>>) -> Option<
    ChannelsView<HyundaiPacketView>,
> {
    match channels {
        Some(c) => Some(c@),
        None => None,
    }
}

/// The kinds of device that the bridge can serve.
#[derive(Debug, Clone, Copy, PartialEq, Eq, Structural)]
pub enum Feature {
    FloorHeating,
    Ventilator,
    LivingRoomLights,
    RealtimeEnergyMeter,
}

impl Feature {
    /// The handler that the device registers: which frames it is for, on
    /// which port, and whether they go on to other handlers.
    pub open spec fn handler_of(self) -> HyundaiPacketHandler {
        match self {
            Feature::FloorHeating => HyundaiPacketHandler {
                device_id: Some(0x18u8),
                device_sub_id: None,
                room_id: None,
                callback: self,
                is_primary: true,
                chaining: false,
            },
            Feature::Ventilator => HyundaiPacketHandler {
                device_id: Some(0x2Bu8),
                device_sub_id: None,
                room_id: Some(0x11u8),
                callback: self,
                is_primary: true,
                chaining: true,
            },
            Feature::LivingRoomLights => HyundaiPacketHandler {
                device_id: Some(0x19u8),
                device_sub_id: Some(0x40u8),
                room_id: None,
                callback: self,
                is_primary: true,
                chaining: false,
            },
            Feature::RealtimeEnergyMeter => HyundaiPacketHandler {
                device_id: Some(0x43u8),
                device_sub_id: Some(0x1Fu8),
                room_id: Some(0x11u8),
                callback: self,
                is_primary: false,
                chaining: false,
            },
        }
    }

    /// The device has a periodic task.
    pub open spec fn polls(self) -> bool {
        self == Feature::RealtimeEnergyMeter
    }

    /// What the device publishes for a frame that its handler has taken.
    pub open spec fn published(self, packet: HyundaiPacketView) -> Seq<PublishView> {
        match self {
            Feature::FloorHeating => heating_published(packet),
            Feature::Ventilator => Ventilator::published(packet),
            Feature::LivingRoomLights => light_published(packet),
            Feature::RealtimeEnergyMeter => meter_published(packet),
        }
    }

    /// What is remembered of the ventilator after the device has seen a
    /// frame.
    pub open spec fn remembered(self, packet: HyundaiPacketView, ventilator: Ventilator) -> Ventilator {
        match self {
            Feature::Ventilator => ventilator.after_packet(packet),
            _ => ventilator,
        }
    }

    /// The packets that a message from the broker makes the device send.
    pub open spec fn commands(
        self,
        ventilator: Ventilator,
        topic: Seq<u8>,
        payload: Seq<u8>,
    ) -> Seq<HyundaiPacketView> {
        match self {
            Feature::FloorHeating => heating_commands(topic, payload),
            Feature::Ventilator => ventilator.commands(topic, payload),
            Feature::LivingRoomLights => light_commands(topic, payload),
            Feature::RealtimeEnergyMeter => Seq::empty(),
        }
    }

    /// All devices, in the order in which they are registered when none is
    /// chosen.
    pub open spec fn all() -> Seq<Feature> {
        seq![
            Feature::FloorHeating,
            Feature::Ventilator,
            Feature::LivingRoomLights,
            Feature::RealtimeEnergyMeter,
        ]
    }

    /// All devices, in the order in which they are registered when none is
    /// chosen.
    pub fn defaults() -> (features: Vec<Feature>)
        ensures
            features@ == Self::all(),
    {
        let mut features: Vec<Feature> = Vec::new();
        features.push(Feature::FloorHeating);
        features.push(Feature::Ventilator);
        features.push(Feature::LivingRoomLights);
        features.push(Feature::RealtimeEnergyMeter);
        assert(features@ =~= Self::all());
        features
    }

    /// The handler that the device registers.
    pub fn handler(&self) -> (handler: HyundaiPacketHandler)
        ensures
            handler == self.handler_of(),
    {
        match self {
            Feature::FloorHeating => HyundaiPacketHandler {
                device_id: Some(0x18),
                device_sub_id: None,
                room_id: None,
                callback: *self,
                is_primary: true,
                chaining: false,
            },
            Feature::Ventilator => HyundaiPacketHandler {
                device_id: Some(0x2B),
                device_sub_id: None,
                room_id: Some(0x11),
                callback: *self,
                is_primary: true,
                chaining: true,
            },
            Feature::LivingRoomLights => HyundaiPacketHandler {
                device_id: Some(0x19),
                device_sub_id: Some(0x40),
                room_id: None,
                callback: *self,
                is_primary: true,
                chaining: false,
            },
            Feature::RealtimeEnergyMeter => HyundaiPacketHandler {
                device_id: Some(0x43),
                device_sub_id: Some(0x1F),
                room_id: Some(0x11),
                callback: *self,
                is_primary: false,
                chaining: false,
            },
        }
    }

    /// Does the device have a periodic task?
    pub fn has_task(&self) -> (b: bool)
        ensures
            b == self.polls(),
    {
        match self {
            Feature::RealtimeEnergyMeter => true,
            _ => false,
        }
    }

    /// The topics that the device listens to, if any.
    pub fn subscription(&self) -> (filter: Option<&'static str>)
        ensures
            match self {
                Feature::FloorHeating => filter is Some && filter->Some_0@ == "heating/+/+/set"@,
                Feature::Ventilator => filter is Some && filter->Some_0@ == "ventilator/+/set"@,
                Feature::LivingRoomLights => filter is Some && filter->Some_0@
                    == "light/0/+/set"@,
                Feature::RealtimeEnergyMeter => filter is None,
            },
    {
        match self {
            Feature::FloorHeating => Some(FloorHeating::subscription()),
            Feature::Ventilator => Some(Ventilator::subscription()),
            Feature::LivingRoomLights => Some(LivingRoomLight::subscription()),
            Feature::RealtimeEnergyMeter => None,
        }
    }

    /// Runs the logic of the device on a frame that its handler has taken.
    pub fn on_packet(
        &self,
        packet: &HyundaiPacket,
        channels: &mut Channels<HyundaiPacket>,
        ventilator: &mut Ventilator,
    )
        ensures
            final(channels)@.published == old(channels)@.published + self.published(packet@),
            final(channels)@.queued == old(channels)@.queued,
            *final(ventilator) == self.remembered(packet@, *old(ventilator)),
    {
        match self {
            Feature::FloorHeating => FloorHeating::on_packet(packet, channels),
            Feature::Ventilator => ventilator.on_packet(packet, channels),
            Feature::LivingRoomLights => LivingRoomLight::on_packet(packet, channels),
            Feature::RealtimeEnergyMeter => RealtimeEnergyMeter::on_packet(packet, channels),
        }
    }

    /// The channels of the secondary port after the task of the device has
    /// run, if it has one.
    pub open spec fn asked(
        self,
        secondary: Option<ChannelsView<HyundaiPacketView>>,
    ) -> Option<ChannelsView<HyundaiPacketView>> {
        if self.polls() {
            meter_asked(secondary)
        } else {
            secondary
        }
    }

    /// Runs the periodic task of the device, if it has one.
    pub fn task(
        &self,
        primary: &mut Channels<HyundaiPacket>,
        secondary: &mut Option<Channels<HyundaiPacket>>,
    )
        ensures
            final(primary)@ == old(primary)@,
            view_of(*final(secondary)) == self.asked(view_of(*old(secondary))),
    {
        match self {
            Feature::RealtimeEnergyMeter => RealtimeEnergyMeter::task(primary, secondary),
            _ => {},
        }
    }

    /// Hands a message from the broker to the device.
    pub fn topic_handler(
        &self,
        ventilator: &Ventilator,
        pk: &Publish,
        ch: &mut Channels<HyundaiPacket>,
        secondary: &mut Option<Channels<HyundaiPacket>>,
    )
        ensures
            view_of(*final(secondary)) == view_of(*old(secondary)),
            final(ch)@.queued == old(ch)@.queued + self.commands(
                *ventilator,
                pk@.topic,
                pk@.payload,
            ),
            final(ch)@.published == old(ch)@.published,
    {
        match self {
            Feature::FloorHeating => FloorHeating::topic_handler(pk, ch, secondary),
            Feature::Ventilator => ventilator.topic_handler(pk, ch, secondary),
            Feature::LivingRoomLights => LivingRoomLight::topic_handler(pk, ch, secondary),
            Feature::RealtimeEnergyMeter => {
                RealtimeEnergyMeter::topic_handler(pk, ch, secondary);
                assert(ch@.queued =~= old(ch)@.queued + Seq::<HyundaiPacketView>::empty());
            },
        }
    }
}

} // verus!
